use vstd::prelude::*;

verus! {

/// How many values the timer posts at most.
pub const TIMER_TICKS: i32 = 100;

/// What the timer does next.
#[derive(PartialEq, Eq, Structural, Copy, Clone, Debug)]
pub enum Tick {
    /// Post `value` to `port`, wait a second, and go on.
    Post { port: i64, value: i32 },
    /// End the timer.
    Stop,
}

/// The timer's decision after `posted` values, with the port now registered.
pub open spec fn tick_for(posted: i32, port: Option<i64>) -> Tick {
    if posted < TIMER_TICKS {
        match port {
            Some(p) => Tick::Post { port: p, value: (posted + 1) as i32 },
            None => Tick::Stop,
        }
    } else {
        Tick::Stop
    }
}

/// Decides the timer's next step and the count of values posted after it.
pub fn next_tick(posted: i32, port: Option<i64>) -> (r: (Tick, i32))
    requires
        0 <= posted <= TIMER_TICKS,
    ensures
        r.0 == tick_for(posted, port),
        r.0 matches Tick::Post { port: q, value } ==> port == Some(q) && value == posted + 1,
        r.0 is Stop <==> (port is None || posted >= TIMER_TICKS),
        r.1 == (if r.0 is Post { posted + 1 } else { posted as int }),
        0 <= r.1 <= TIMER_TICKS,
{
    if posted < TIMER_TICKS {
        match port {
            Some(p) => (Tick::Post { port: p, value: posted + 1 }, posted + 1),
            None => (Tick::Stop, posted),
        }
    } else {
        (Tick::Stop, posted)
    }
}

/// The timer posts only to the port that is registered, and posts the next
/// value; it stops exactly when no port is registered or every value has
/// been posted.
pub proof fn law_timer_posts_to_registered_port(posted: i32, port: Option<i64>)
    requires
        0 <= posted <= TIMER_TICKS,
    ensures
        tick_for(posted, port) matches Tick::Post { port: q, value } ==> port == Some(q) && value == posted + 1,
        forall|p: i64| posted < TIMER_TICKS && port == Some(p) ==> tick_for(posted, port) == (Tick::Post { port: p, value: (posted + 1) as i32 }),
        tick_for(posted, port) is Stop <==> (port is None || posted >= TIMER_TICKS),
{
}

/// The values that the timer posts when it starts from `posted` and the port
/// stays registered for `steps` steps.
pub open spec fn posted_values(posted: i32, port: i64, steps: nat) -> Seq<i32>
    decreases steps,
{
    if steps == 0 {
        Seq::empty()
    } else {
        match tick_for(posted, Some(port)) {
            Tick::Post { value, .. } => seq![value].add(posted_values(value, port, (steps - 1) as nat)),
            Tick::Stop => Seq::empty(),
        }
    }
}

/// With the port registered throughout, the timer posts `1, 2, ...,
/// TIMER_TICKS` in order, each once, and then stops, however long it runs.
pub proof fn lemma_timer_posts_each_value_once(port: i64, steps: nat)
    ensures
        posted_values(0, port, steps) == Seq::new(
            if steps < TIMER_TICKS { steps } else { TIMER_TICKS as nat },
            |i: int| (i + 1) as i32,
        ),
{
    lemma_posted_from(0, port, steps);
}

proof fn lemma_posted_from(posted: i32, port: i64, steps: nat)
    requires
        0 <= posted <= TIMER_TICKS,
    ensures
        posted_values(posted, port, steps) == Seq::new(
            if steps < TIMER_TICKS - posted { steps } else { (TIMER_TICKS - posted) as nat },
            |i: int| (posted + i + 1) as i32,
        ),
    decreases steps,
{
    let n = if steps < TIMER_TICKS - posted { steps } else { (TIMER_TICKS - posted) as nat };
    let expect = Seq::new(n, |i: int| (posted + i + 1) as i32);
    if steps == 0 || posted == TIMER_TICKS {
        assert(posted_values(posted, port, steps) =~= expect);
    } else {
        let next = (posted + 1) as i32;
        lemma_posted_from(next, port, (steps - 1) as nat);
        let rest = posted_values(next, port, (steps - 1) as nat);
        assert(posted_values(posted, port, steps) == seq![next].add(rest));
        assert(seq![next].add(rest) =~= expect);
    }
}

} // verus!
