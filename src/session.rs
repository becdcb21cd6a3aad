//! The session plan: which intervals a run is made of, in what order, and
//! how long each lasts.
use vstd::prelude::*;

verus! {

/// Seconds in one minute.
pub const SECS_PER_MIN: u64 = 60;

/// The largest number of minutes whose length in seconds fits in a `u64`.
pub const MAX_MINUTES: u64 = 307445734561825860;

/// What an interval is for.
#[derive(Clone, Copy, Debug, PartialEq, Eq, Structural)]
pub enum IntervalKind {
    Focus,
    ShortBreak,
    LongBreak,
}

/// One countdown of the plan. `session` is the number, from 1, of the focus
/// session that the interval is or follows.
#[derive(Clone, Copy, Debug, PartialEq, Eq, Structural)]
pub struct Interval {
    pub kind: IntervalKind,
    pub secs: u64,
    pub session: u64,
}

/// The settings of one run, in minutes and counts.
#[derive(Clone, Copy, Debug, PartialEq, Eq, Structural)]
pub struct Config {
    pub focus_min: u64,
    pub break_min: u64,
    pub cycles: u64,
    pub long_break_min: u64,
    pub long_every: u64,
}

impl Default for Config {
    /// The conventional settings: 25-minute focus sessions, 5-minute breaks,
    /// 4 cycles, and a 15-minute long break every 4 sessions.
    fn default() -> (r: Config)
        ensures
            r == (Config { focus_min: 25, break_min: 5, cycles: 4, long_break_min: 15, long_every: 4 }),
    {
        Config { focus_min: 25, break_min: 5, cycles: 4, long_break_min: 15, long_every: 4 }
    }
}

/// The commands the timer understands.
#[derive(Clone, Copy, Debug, PartialEq, Eq, Structural)]
pub enum Command {
    /// Run a Pomodoro session.
    Run(Config),
}

/// Why a configuration cannot be run.
#[derive(Clone, Copy, Debug, PartialEq, Eq, Structural)]
pub enum ConfigError {
    /// Long breaks were asked for every zero sessions.
    ZeroLongEvery,
    /// A duration does not fit in a count of seconds.
    DurationTooLong,
}

/// A configuration that a session can run on.
pub open spec fn valid(cfg: Config) -> bool {
    &&& cfg.long_every > 0
    &&& cfg.focus_min <= MAX_MINUTES
    &&& cfg.break_min <= MAX_MINUTES
    &&& cfg.long_break_min <= MAX_MINUTES
}

/// The result of checking a configuration.
pub open spec fn validate_spec(cfg: Config) -> Result<(), ConfigError> {
    if cfg.long_every == 0 {
        Err(ConfigError::ZeroLongEvery)
    } else if cfg.focus_min > MAX_MINUTES || cfg.break_min > MAX_MINUTES || cfg.long_break_min
        > MAX_MINUTES {
        Err(ConfigError::DurationTooLong)
    } else {
        Ok(())
    }
}

/// Focus session `n` of the plan.
pub open spec fn focus_spec(cfg: Config, n: nat) -> Interval {
    Interval { kind: IntervalKind::Focus, secs: (cfg.focus_min * SECS_PER_MIN) as u64, session: n as u64 }
}

/// The break after focus session `n`: a long one when `n` is a multiple of
/// `long_every`, else a short one.
pub open spec fn break_spec(cfg: Config, n: nat) -> Interval {
    if n % (cfg.long_every as nat) == 0 {
        Interval {
            kind: IntervalKind::LongBreak,
            secs: (cfg.long_break_min * SECS_PER_MIN) as u64,
            session: n as u64,
        }
    } else {
        Interval {
            kind: IntervalKind::ShortBreak,
            secs: (cfg.break_min * SECS_PER_MIN) as u64,
            session: n as u64,
        }
    }
}

/// Number of intervals of a run: a focus session per cycle and a break
/// between each two of them.
pub open spec fn plan_len(cfg: Config) -> nat {
    if cfg.cycles == 0 {
        0
    } else {
        (2 * cfg.cycles - 1) as nat
    }
}

/// The intervals of a run, in order: focus sessions at even places, the
/// break after each focus session but the last at odd places.
#[verifier::opaque]
pub open spec fn plan_spec(cfg: Config) -> Seq<Interval> {
    Seq::new(
        plan_len(cfg),
        |i: int|
            if i % 2 == 0 {
                focus_spec(cfg, (i / 2 + 1) as nat)
            } else {
                break_spec(cfg, ((i + 1) / 2) as nat)
            },
    )
}

/// The interval that follows `prev` in a run (`None` for the first one),
/// or `None` when the run is over.
pub open spec fn next_spec(cfg: Config, prev: Option<Interval>) -> Option<Interval> {
    match prev {
        None => if cfg.cycles == 0 {
            None
        } else {
            Some(focus_spec(cfg, 1))
        },
        Some(iv) => if iv.kind == IntervalKind::Focus {
            if iv.session < cfg.cycles {
                Some(break_spec(cfg, iv.session as nat))
            } else {
                None
            }
        } else {
            Some(focus_spec(cfg, (iv.session + 1) as nat))
        },
    }
}

/// Checks that a configuration can be run: long breaks every at least one
/// session, and every duration short enough to count in seconds.
pub fn validate(cfg: &Config) -> (r: Result<(), ConfigError>)
    ensures
        r == validate_spec(*cfg),
        r is Ok <==> valid(*cfg),
{
    if cfg.long_every == 0 {
        Err(ConfigError::ZeroLongEvery)
    } else if cfg.focus_min > MAX_MINUTES || cfg.break_min > MAX_MINUTES || cfg.long_break_min
        > MAX_MINUTES {
        Err(ConfigError::DurationTooLong)
    } else {
        Ok(())
    }
}

/// Focus session `n`, labelled `Focus`, lasting `focus_min` minutes.
fn focus_interval(cfg: &Config, n: u64) -> (r: Interval)
    requires
        valid(*cfg),
    ensures
        r == focus_spec(*cfg, n as nat),
{
    assert(cfg.focus_min * 60 <= u64::MAX) by (nonlinear_arith)
        requires
            cfg.focus_min <= MAX_MINUTES,
    ;
    Interval { kind: IntervalKind::Focus, secs: cfg.focus_min * SECS_PER_MIN, session: n }
}

/// The break that follows focus session `n`.
fn break_interval(cfg: &Config, n: u64) -> (r: Interval)
    requires
        valid(*cfg),
    ensures
        r == break_spec(*cfg, n as nat),
{
    assert(cfg.long_break_min * 60 <= u64::MAX && cfg.break_min * 60 <= u64::MAX)
        by (nonlinear_arith)
        requires
            cfg.long_break_min <= MAX_MINUTES,
            cfg.break_min <= MAX_MINUTES,
    ;
    if n % cfg.long_every == 0 {
        Interval { kind: IntervalKind::LongBreak, secs: cfg.long_break_min * SECS_PER_MIN, session: n }
    } else {
        Interval { kind: IntervalKind::ShortBreak, secs: cfg.break_min * SECS_PER_MIN, session: n }
    }
}

/// The interval that follows `prev` in a run on `cfg` (give `None` to get the
/// first), or `None` when the run is over. A break given as `prev` follows a
/// session that is not the run's last.
pub fn next_interval(cfg: &Config, prev: Option<Interval>) -> (r: Option<Interval>)
    requires
        valid(*cfg),
        prev matches Some(iv) ==> (iv.kind != IntervalKind::Focus ==> iv.session < cfg.cycles),
    ensures
        r == next_spec(*cfg, prev),
{
    match prev {
        None => if cfg.cycles == 0 {
            None
        } else {
            Some(focus_interval(cfg, 1))
        },
        Some(iv) => {
            if iv.kind == IntervalKind::Focus {
                if iv.session < cfg.cycles {
                    Some(break_interval(cfg, iv.session))
                } else {
                    None
                }
            } else {
                Some(focus_interval(cfg, iv.session + 1))
            }
        },
    }
}

/// Stepping from nothing with `next_interval` walks the plan: the first
/// step gives its first interval, and each interval of the plan is followed
/// by the next one, the last by the end of the run.
pub proof fn lemma_steps_walk_plan(cfg: Config, i: int)
    requires
        valid(cfg),
        0 <= i < plan_len(cfg),
    ensures
        next_spec(cfg, None) == Some(plan_spec(cfg)[0]),
        i + 1 < plan_len(cfg) ==> next_spec(cfg, Some(plan_spec(cfg)[i])) == Some(
            plan_spec(cfg)[i + 1],
        ),
        i + 1 == plan_len(cfg) ==> next_spec(cfg, Some(plan_spec(cfg)[i])) is None,
{
    reveal(plan_spec);
    let p = plan_spec(cfg);
    if i % 2 == 0 {
        assert(p[i].kind == IntervalKind::Focus);
        assert(p[i].session == i / 2 + 1);
    } else {
        assert(p[i].kind != IntervalKind::Focus);
        assert(p[i].session == (i + 1) / 2);
    }
}

/// Builds the whole plan of a run on `cfg`, or says why `cfg` cannot run.
pub fn build_plan(cfg: &Config) -> (r: Result<Vec<Interval>, ConfigError>)
    requires
        cfg.cycles <= usize::MAX / 2,
    ensures
        validate_spec(*cfg) is Err ==> r == Err::<Vec<Interval>, ConfigError>(
            validate_spec(*cfg)->Err_0,
        ),
        validate_spec(*cfg) is Ok ==> r is Ok && r->Ok_0@ == plan_spec(*cfg),
{
    match validate(cfg) {
        Err(e) => {
            return Err(e);
        },
        Ok(()) => {},
    }
    proof {
        reveal(plan_spec);
    }
    let mut plan: Vec<Interval> = Vec::new();
    let mut cur = next_interval(cfg, None);
    proof {
        if plan_len(*cfg) > 0 {
            lemma_steps_walk_plan(*cfg, 0);
        }
    }
    loop
        invariant
            valid(*cfg),
            plan.len() <= plan_len(*cfg),
            plan_spec(*cfg).len() == plan_len(*cfg),
            plan@ == plan_spec(*cfg).take(plan.len() as int),
            plan.len() < plan_len(*cfg) ==> cur == Some(plan_spec(*cfg)[plan.len() as int]),
            plan.len() == plan_len(*cfg) ==> cur is None,
        ensures
            plan@ == plan_spec(*cfg),
        decreases plan_len(*cfg) - plan.len(),
    {
        match cur {
            None => {
                assert(plan@ =~= plan_spec(*cfg));
                break ;
            },
            Some(iv) => {
                proof {
                    lemma_steps_walk_plan(*cfg, plan.len() as int);
                    lemma_kind_at(*cfg, plan.len() as int);
                }
                plan.push(iv);
                cur = next_interval(cfg, Some(iv));
                assert(plan@ =~= plan_spec(*cfg).take(plan.len() as int));
            },
        }
    }
    Ok(plan)
}

proof fn lemma_kind_at(cfg: Config, i: int)
    requires
        0 <= i < plan_len(cfg),
    ensures
        plan_spec(cfg).len() == plan_len(cfg),
        plan_spec(cfg)[i].kind == IntervalKind::Focus <==> i % 2 == 0,
        i % 2 == 0 ==> plan_spec(cfg)[i].session == i / 2 + 1,
        i % 2 == 1 ==> plan_spec(cfg)[i].session == (i + 1) / 2,
{
    reveal(plan_spec);
    if i % 2 != 0 {
        assert(break_spec(cfg, ((i + 1) / 2) as nat).kind != IntervalKind::Focus);
    }
}

/// A run of at least one cycle has two intervals per cycle but one; they
/// alternate between focus and break, focus at even places and break at odd
/// ones, so that the first and the last are focus sessions.
pub proof fn lemma_plan_alternates(cfg: Config)
    requires
        cfg.cycles >= 1,
    ensures
        plan_spec(cfg).len() == 2 * cfg.cycles - 1,
        plan_spec(cfg)[0].kind == IntervalKind::Focus,
        plan_spec(cfg)[plan_spec(cfg).len() - 1].kind == IntervalKind::Focus,
        forall|i: int|
            0 <= i < plan_spec(cfg).len() ==> ((#[trigger] plan_spec(cfg)[i]).kind
                == IntervalKind::Focus <==> i % 2 == 0),
{
    let p = plan_spec(cfg);
    let last: int = 2 * cfg.cycles - 2;
    lemma_kind_at(cfg, 0);
    lemma_kind_at(cfg, last);
    assert(last % 2 == 0);
    assert forall|i: int| 0 <= i < p.len() implies (#[trigger] p[i]).kind == IntervalKind::Focus
        <==> i % 2 == 0 by {
        lemma_kind_at(cfg, i);
    }
}

/// The break after focus session `n`, for each session but the last, is a
/// long break exactly when `n` is a multiple of `long_every`.
pub proof fn lemma_long_break_every(cfg: Config, n: nat)
    requires
        cfg.long_every > 0,
        1 <= n < cfg.cycles,
    ensures
        plan_spec(cfg)[2 * n - 2].kind == IntervalKind::Focus,
        plan_spec(cfg)[2 * n - 2].session == n,
        plan_spec(cfg)[2 * n - 1].session == n,
        plan_spec(cfg)[2 * n - 1].kind == IntervalKind::LongBreak <==> n % (cfg.long_every as nat)
            == 0,
        plan_spec(cfg)[2 * n - 1].kind != IntervalKind::LongBreak ==> plan_spec(cfg)[2 * n
            - 1].kind == IntervalKind::ShortBreak,
{
    reveal(plan_spec);
    let i: int = 2 * n - 1;
    assert(i % 2 == 1 && (i + 1) / 2 == n);
    assert((2 * n - 2) % 2 == 0 && (2 * n - 2) / 2 + 1 == n);
}

/// A run of zero cycles has no intervals: the plan is empty and the first
/// step already ends the run.
pub proof fn lemma_zero_cycles_empty(cfg: Config)
    requires
        cfg.cycles == 0,
    ensures
        plan_spec(cfg).len() == 0,
        next_spec(cfg, None) is None,
{
    reveal(plan_spec);
}

} // verus!
