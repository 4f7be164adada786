//! The buzzer and the fan, both behind a relay that is active-low: the
//! relay closes when its pin is driven low. The host turns the level round,
//! so that a plugin asks for "on for a duration" and never sees the wiring.
//!
//! Nothing here touches a pin. Each function gives the steps to carry out.

use vstd::prelude::*;
use crate::text::equal;

verus! {

/// One step on the pins.
#[derive(Debug, Clone, Copy, PartialEq, Eq, Structural)]
pub enum Step {
    /// Make the pin an output.
    SetOutput { pin: u8 },
    /// Drive the pin high or low.
    Write { pin: u8, high: bool },
    /// Wait.
    Sleep { ms: u64 },
}

/// The level that puts a relay into the state `on`.
pub open spec fn level_for(on: bool) -> bool {
    !on
}

/// The relay on `pin` closed for `on_ms` milliseconds.
pub open spec fn pulse(pin: u8, on_ms: u64) -> Seq<Step> {
    seq![
        Step::Write { pin, high: level_for(true) },
        Step::Sleep { ms: on_ms },
        Step::Write { pin, high: level_for(false) },
    ]
}

/// `count` pulses of `on_ms` milliseconds, each followed by a pause of
/// `gap_ms` milliseconds.
pub open spec fn pulses(pin: u8, count: nat, on_ms: u64, gap_ms: u64) -> Seq<Step>
    decreases count,
{
    if count == 0 {
        Seq::empty()
    } else {
        pulses(pin, (count - 1) as nat, on_ms, gap_ms) + pulse(pin, on_ms) + seq![
            Step::Sleep { ms: gap_ms },
        ]
    }
}

/// The steps that sound the buzzer once.
pub open spec fn buzz_steps(pin: u8, duration_ms: u32) -> Seq<Step> {
    seq![Step::SetOutput { pin }] + pulse(pin, duration_ms as u64)
}

/// The steps that sound the buzzer `count` times.
pub open spec fn beep_steps(pin: u8, count: u8, duration_ms: u32, interval_ms: u32) -> Seq<Step> {
    seq![Step::SetOutput { pin }] + pulses(
        pin,
        count as nat,
        duration_ms as u64,
        interval_ms as u64,
    )
}

/// Whether the relay on `pin` is closed after `steps`, when it was in the
/// state `on` before.
pub open spec fn closed_after(steps: Seq<Step>, pin: u8, on: bool) -> bool
    decreases steps.len(),
{
    if steps.len() == 0 {
        on
    } else {
        closed_after(steps.drop_first(), pin, after_step(steps.first(), pin, on))
    }
}

/// The state of the relay on `pin` after one step.
pub open spec fn after_step(step: Step, pin: u8, on: bool) -> bool {
    match step {
        Step::Write { pin: written, high } => if written == pin {
            !high
        } else {
            on
        },
        _ => on,
    }
}

/// For how many milliseconds the relay on `pin` is closed while `steps`
/// are carried out, when it was in the state `on` before.
pub open spec fn closed_ms(steps: Seq<Step>, pin: u8, on: bool) -> nat
    decreases steps.len(),
{
    if steps.len() == 0 {
        0
    } else {
        let spent: nat = match steps.first() {
            Step::Sleep { ms } => if on {
                ms as nat
            } else {
                0
            },
            _ => 0,
        };
        spent + closed_ms(steps.drop_first(), pin, after_step(steps.first(), pin, on))
    }
}

/// Steps carried out one after the other: the relay is closed for the sum
/// of the times, and is left as the later steps leave it.
pub proof fn lemma_steps_in_sequence(a: Seq<Step>, b: Seq<Step>, pin: u8, on: bool)
    ensures
        closed_after(a + b, pin, on) == closed_after(b, pin, closed_after(a, pin, on)),
        closed_ms(a + b, pin, on) == closed_ms(a, pin, on) + closed_ms(
            b,
            pin,
            closed_after(a, pin, on),
        ),
    decreases a.len(),
{
    if a.len() == 0 {
        assert(a + b =~= b);
    } else {
        assert((a + b).first() == a.first());
        assert((a + b).drop_first() =~= a.drop_first() + b);
        lemma_steps_in_sequence(a.drop_first(), b, pin, after_step(a.first(), pin, on));
    }
}

/// A pulse closes the relay for its duration and leaves it open.
pub proof fn lemma_pulse(pin: u8, on_ms: u64, on: bool)
    ensures
        closed_ms(pulse(pin, on_ms), pin, on) == on_ms,
        !closed_after(pulse(pin, on_ms), pin, on),
{
    let p = pulse(pin, on_ms);
    let p1 = p.drop_first();
    let p2 = p1.drop_first();
    let p3 = p2.drop_first();
    assert(p.first() == Step::Write { pin, high: false });
    assert(p1.first() == Step::Sleep { ms: on_ms });
    assert(p2.first() == Step::Write { pin, high: true });
    assert(p3.len() == 0);
    assert(closed_ms(p3, pin, false) == 0);
    assert(closed_ms(p2, pin, true) == 0);
    assert(closed_ms(p1, pin, true) == on_ms);
    assert(!closed_after(p3, pin, false));
    assert(!closed_after(p2, pin, true));
    assert(!closed_after(p1, pin, true));
}

/// A step that is no write on `pin`, taken while the relay is open, closes
/// nothing.
proof fn lemma_idle_step(step: Step, pin: u8)
    requires
        !(step is Write),
    ensures
        closed_ms(seq![step], pin, false) == 0,
        !closed_after(seq![step], pin, false),
{
    let s = seq![step];
    assert(s.first() == step);
    assert(s.drop_first().len() == 0);
    assert(closed_ms(s.drop_first(), pin, false) == 0);
    assert(!closed_after(s.drop_first(), pin, false));
}

/// Pulses with pauses, begun with the relay open, close it for the sum of
/// the pulses and leave it open.
pub proof fn lemma_pulses(pin: u8, count: nat, on_ms: u64, gap_ms: u64)
    ensures
        closed_ms(pulses(pin, count, on_ms, gap_ms), pin, false) == count * on_ms,
        !closed_after(pulses(pin, count, on_ms, gap_ms), pin, false),
    decreases count,
{
    if count > 0 {
        let before = pulses(pin, (count - 1) as nat, on_ms, gap_ms);
        let gap = seq![Step::Sleep { ms: gap_ms }];
        lemma_pulses(pin, (count - 1) as nat, on_ms, gap_ms);
        lemma_pulse(pin, on_ms, false);
        lemma_idle_step(Step::Sleep { ms: gap_ms }, pin);
        lemma_steps_in_sequence(before, pulse(pin, on_ms), pin, false);
        lemma_steps_in_sequence(before + pulse(pin, on_ms), gap, pin, false);
        assert((count - 1) * on_ms + on_ms == count * on_ms) by (nonlinear_arith);
        assert(closed_ms(before + pulse(pin, on_ms) + gap, pin, false) == (count - 1) * on_ms
            + on_ms);
    } else {
        assert(count * on_ms == 0) by (nonlinear_arith)
            requires
                count == 0,
        ;
    }
}

/// On for a duration: the steps of one buzz close the relay for exactly the
/// time asked for and leave it open, whatever the wiring's polarity asks of
/// the pin.
pub proof fn lemma_buzz_sounds_for_duration(pin: u8, duration_ms: u32)
    ensures
        closed_ms(buzz_steps(pin, duration_ms), pin, false) == duration_ms,
        !closed_after(buzz_steps(pin, duration_ms), pin, false),
{
    let setup = seq![Step::SetOutput { pin }];
    lemma_idle_step(Step::SetOutput { pin }, pin);
    lemma_pulse(pin, duration_ms as u64, false);
    lemma_steps_in_sequence(setup, pulse(pin, duration_ms as u64), pin, false);
}

/// The steps of a beep pattern close the relay `count` times the duration
/// and leave it open.
pub proof fn lemma_beep_sounds_for_durations(
    pin: u8,
    count: u8,
    duration_ms: u32,
    interval_ms: u32,
)
    ensures
        closed_ms(beep_steps(pin, count, duration_ms, interval_ms), pin, false) == count
            * duration_ms,
        !closed_after(beep_steps(pin, count, duration_ms, interval_ms), pin, false),
{
    let setup = seq![Step::SetOutput { pin }];
    let body = pulses(pin, count as nat, duration_ms as u64, interval_ms as u64);
    lemma_idle_step(Step::SetOutput { pin }, pin);
    lemma_pulses(pin, count as nat, duration_ms as u64, interval_ms as u64);
    lemma_steps_in_sequence(setup, body, pin, false);
}

/// Appends one pulse to `steps`.
fn push_pulse(steps: &mut Vec<Step>, pin: u8, on_ms: u64)
    ensures
        final(steps)@ == old(steps)@ + pulse(pin, on_ms),
{
    steps.push(Step::Write { pin, high: false });
    steps.push(Step::Sleep { ms: on_ms });
    steps.push(Step::Write { pin, high: true });
    assert(steps@ =~= old(steps)@ + pulse(pin, on_ms));
}

/// Appends `count` pulses, each followed by its pause, to `steps`.
fn push_pulses(steps: &mut Vec<Step>, pin: u8, count: u8, on_ms: u64, gap_ms: u64)
    ensures
        final(steps)@ == old(steps)@ + pulses(pin, count as nat, on_ms, gap_ms),
{
    let mut done: u8 = 0;
    assert(steps@ =~= old(steps)@ + pulses(pin, 0, on_ms, gap_ms));
    while done < count
        invariant
            done <= count,
            steps@ == old(steps)@ + pulses(pin, done as nat, on_ms, gap_ms),
        decreases count - done,
    {
        push_pulse(steps, pin, on_ms);
        steps.push(Step::Sleep { ms: gap_ms });
        done += 1;
        proof {
            let so_far = pulses(pin, (done - 1) as nat, on_ms, gap_ms);
            assert(steps@ =~= old(steps)@ + (so_far + pulse(pin, on_ms) + seq![
                Step::Sleep { ms: gap_ms },
            ]));
        }
    }
}

/// `count` pulses on a pin that is an output already, each of `on_ms`
/// milliseconds and followed by `gap_ms` milliseconds of silence.
pub fn pulse_train(pin: u8, count: u8, on_ms: u32, gap_ms: u32) -> (steps: Vec<Step>)
    ensures
        steps@ == pulses(pin, count as nat, on_ms as u64, gap_ms as u64),
{
    let mut steps: Vec<Step> = Vec::new();
    push_pulses(&mut steps, pin, count, on_ms as u64, gap_ms as u64);
    assert(steps@ =~= pulses(pin, count as nat, on_ms as u64, gap_ms as u64));
    steps
}

/// Sounds the buzzer on `pin` for `duration_ms` milliseconds.
pub fn buzz(pin: u8, duration_ms: u32) -> (steps: Vec<Step>)
    ensures
        steps@ == buzz_steps(pin, duration_ms),
{
    let mut steps: Vec<Step> = Vec::new();
    steps.push(Step::SetOutput { pin });
    push_pulse(&mut steps, pin, duration_ms as u64);
    assert(steps@ =~= buzz_steps(pin, duration_ms));
    steps
}

/// Sounds the buzzer on `pin` `count` times for `duration_ms` milliseconds,
/// with `interval_ms` milliseconds of silence after each.
pub fn beep(pin: u8, count: u8, duration_ms: u32, interval_ms: u32) -> (steps: Vec<Step>)
    ensures
        steps@ == beep_steps(pin, count, duration_ms, interval_ms),
{
    let mut steps: Vec<Step> = Vec::new();
    steps.push(Step::SetOutput { pin });
    push_pulses(&mut steps, pin, count, duration_ms as u64, interval_ms as u64);
    assert(steps@ =~= beep_steps(pin, count, duration_ms, interval_ms));
    steps
}

/// A named way of sounding the buzzer.
#[derive(Debug, Clone, Copy, PartialEq, Eq, Structural)]
pub enum BuzzPattern {
    /// One short beep.
    Single,
    /// Three short beeps.
    Triple,
    /// One long beep.
    Long,
}

/// The pattern that a pattern's name stands for. A name that is not known
/// stands for the single beep.
pub open spec fn pattern_named(name: Seq<char>) -> BuzzPattern {
    if name == "triple"@ {
        BuzzPattern::Triple
    } else if name == "long"@ {
        BuzzPattern::Long
    } else {
        BuzzPattern::Single
    }
}

/// The pattern that a dashboard action asks for. An action that is not
/// known asks for the single beep.
pub open spec fn pattern_for_action(action: Seq<char>) -> BuzzPattern {
    if action == "beep3"@ {
        BuzzPattern::Triple
    } else if action == "long"@ {
        BuzzPattern::Long
    } else {
        BuzzPattern::Single
    }
}

impl BuzzPattern {
    /// The pattern that `name` stands for.
    pub fn from_name(name: &str) -> (pattern: BuzzPattern)
        ensures
            pattern == pattern_named(name@),
    {
        if equal(name, "triple") {
            BuzzPattern::Triple
        } else if equal(name, "long") {
            BuzzPattern::Long
        } else {
            BuzzPattern::Single
        }
    }

    /// The pattern that the dashboard action `action` asks for.
    pub fn from_action(action: &str) -> (pattern: BuzzPattern)
        ensures
            pattern == pattern_for_action(action@),
    {
        if equal(action, "beep3") {
            BuzzPattern::Triple
        } else if equal(action, "long") {
            BuzzPattern::Long
        } else {
            BuzzPattern::Single
        }
    }

    /// The pattern's name.
    pub open spec fn name_of(self) -> Seq<char> {
        match self {
            BuzzPattern::Single => "single"@,
            BuzzPattern::Triple => "triple"@,
            BuzzPattern::Long => "long"@,
        }
    }

    /// The pattern's name, as it is sent to a spoke.
    pub fn name(self) -> (name: &'static str)
        ensures
            name@ == self.name_of(),
    {
        match self {
            BuzzPattern::Single => "single",
            BuzzPattern::Triple => "triple",
            BuzzPattern::Long => "long",
        }
    }

    /// The steps that play the pattern on `pin`.
    pub open spec fn steps_of(self, pin: u8) -> Seq<Step> {
        match self {
            BuzzPattern::Single => buzz_steps(pin, 100),
            BuzzPattern::Triple => beep_steps(pin, 3, 100, 100),
            BuzzPattern::Long => buzz_steps(pin, 500),
        }
    }

    /// Plays the pattern on `pin`: a tenth of a second for a short beep,
    /// half a second for the long one.
    pub fn steps(self, pin: u8) -> (steps: Vec<Step>)
        ensures
            steps@ == self.steps_of(pin),
    {
        match self {
            BuzzPattern::Single => buzz(pin, 100),
            BuzzPattern::Triple => beep(pin, 3, 100, 100),
            BuzzPattern::Long => buzz(pin, 500),
        }
    }
}

/// Where a request to sound the buzzer goes.
#[derive(Debug, Clone, Copy, PartialEq, Eq, Structural)]
pub enum BuzzerRoute {
    /// To the spoke that the buzzer is wired to.
    Forward { pattern: BuzzPattern },
    /// To the pin of this node.
    Local { pattern: BuzzPattern },
}

/// The text that names the pattern of a request: the pattern of its body, or
/// the name of the pattern that its action asks for, or `"single"`.
pub open spec fn requested_name(body_pattern: Option<Seq<char>>, action: Option<Seq<char>>) -> Seq<
    char,
> {
    match body_pattern {
        Some(name) => name,
        None => match action {
            Some(a) => pattern_for_action(a).name_of(),
            None => "single"@,
        },
    }
}

/// Where a request goes, and with which pattern. With a spoke configured
/// the request is forwarded, and the pattern is the one that its action asks
/// for, the requested name taking the action's place where there is none.
/// Without one the requested name is played here.
pub open spec fn route_of(
    body_pattern: Option<Seq<char>>,
    action: Option<Seq<char>>,
    spoke_url: Seq<char>,
) -> BuzzerRoute {
    let name = requested_name(body_pattern, action);
    if spoke_url.len() > 0 {
        BuzzerRoute::Forward {
            pattern: pattern_for_action(
                match action {
                    Some(a) => a,
                    None => name,
                },
            ),
        }
    } else {
        BuzzerRoute::Local { pattern: pattern_named(name) }
    }
}

/// Decides where a request to sound the buzzer goes.
pub fn route_buzzer(body_pattern: Option<&str>, action: Option<&str>, spoke_url: &str) -> (route:
    BuzzerRoute)
    ensures
        route == route_of(
            match body_pattern {
                Some(p) => Some(p@),
                None => None,
            },
            match action {
                Some(a) => Some(a@),
                None => None,
            },
            spoke_url@,
        ),
{
    let name: &str = match body_pattern {
        Some(name) => name,
        None => match action {
            Some(a) => BuzzPattern::from_action(a).name(),
            None => "single",
        },
    };
    if !spoke_url.is_empty() {
        let asked: &str = match action {
            Some(a) => a,
            None => name,
        };
        BuzzerRoute::Forward { pattern: BuzzPattern::from_action(asked) }
    } else {
        BuzzerRoute::Local { pattern: BuzzPattern::from_name(name) }
    }
}

/// The steps that switch the fan: its relay closes when the fan is to run.
pub open spec fn fan_steps(pin: u8, on: bool) -> Seq<Step> {
    seq![Step::SetOutput { pin }, Step::Write { pin, high: level_for(on) }]
}

/// Switches the fan on `pin`.
pub fn set_fan(pin: u8, on: bool) -> (steps: Vec<Step>)
    ensures
        steps@ == fan_steps(pin, on),
{
    let mut steps: Vec<Step> = Vec::new();
    steps.push(Step::SetOutput { pin });
    steps.push(Step::Write { pin, high: !on });
    assert(steps@ =~= fan_steps(pin, on));
    steps
}

/// The steps of a fan test: two short beeps, then the fan runs for ten
/// seconds.
pub open spec fn fan_test_steps(fan_pin: u8, buzzer_pin: u8) -> Seq<Step> {
    pulses(buzzer_pin, 2, 100, 100) + fan_steps(fan_pin, true) + seq![
        Step::Sleep { ms: 10000 },
        Step::Write { pin: fan_pin, high: level_for(false) },
    ]
}

/// Plans a fan test. While the fan runs no test is started.
pub fn fan_test(fan_running: bool, fan_pin: u8, buzzer_pin: u8) -> (plan: Option<Vec<Step>>)
    ensures
        plan is None <==> fan_running,
        plan matches Some(steps) ==> steps@ == fan_test_steps(fan_pin, buzzer_pin),
{
    if fan_running {
        return None;
    }
    let mut steps: Vec<Step> = Vec::new();
    push_pulses(&mut steps, buzzer_pin, 2, 100, 100);
    steps.push(Step::SetOutput { pin: fan_pin });
    steps.push(Step::Write { pin: fan_pin, high: false });
    steps.push(Step::Sleep { ms: 10000 });
    steps.push(Step::Write { pin: fan_pin, high: true });
    assert(steps@ =~= fan_test_steps(fan_pin, buzzer_pin));
    Some(steps)
}

} // verus!
