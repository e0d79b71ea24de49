//! Threshold alert: classifies each CO2 reading into a level, names the colour
//! of the indicator, and asks for an alert burst while the reading is critical,
//! at most five times in a row.
//!
//! Readings and thresholds are IEEE-754 single-precision bit patterns.

use crate::number_representations;
use vstd::prelude::*;

verus! {

/// How many alert bursts are sounded before the buzzer stays silent.
pub const MAX_BURSTS: u16 = 5;

/// The level a reading falls into.
#[derive(Clone, Copy, Debug, PartialEq, Eq, Structural)]
pub enum AlertLevel {
    /// At or below the first warning level. The indicator is green.
    Green,
    /// Above the first warning level. The indicator is blue.
    Blue,
    /// Above the second warning level. The indicator is yellow.
    Yellow,
    /// Above the limit. The indicator is red and the buzzer sounds or rests.
    RedAlerting,
}

/// What one evaluation asks of the output devices.
#[derive(Clone, Copy, Debug, PartialEq, Eq, Structural)]
pub struct AlertAction {
    /// The level to show on the indicator.
    pub level: AlertLevel,
    /// Whether to sound one alert burst.
    pub sound_alert: bool,
}

/// The alert's state as plain values: the three thresholds and the number of
/// bursts sounded since the reading was last nominal.
pub struct AlertState {
    pub warning_level_1: u32,
    pub warning_level_2: u32,
    pub limit_level: u32,
    pub buzzer_count: u16,
}

/// The level of a reading against three thresholds. Comparisons are strict: a
/// reading equal to a threshold falls into the band below it.
pub open spec fn classify(state: AlertState, reading: u32) -> AlertLevel {
    if number_representations::greater_than_spec(reading, state.limit_level) {
        AlertLevel::RedAlerting
    } else if number_representations::greater_than_spec(reading, state.warning_level_2) {
        AlertLevel::Yellow
    } else if number_representations::greater_than_spec(reading, state.warning_level_1) {
        AlertLevel::Blue
    } else {
        AlertLevel::Green
    }
}

/// Whether an evaluation sounds a burst: the reading is critical and fewer than
/// five bursts were sounded since it was last nominal.
pub open spec fn sounds(state: AlertState, reading: u32) -> bool {
    classify(state, reading) is RedAlerting && state.buzzer_count < MAX_BURSTS
}

/// What an evaluation asks of the output devices.
pub open spec fn action(state: AlertState, reading: u32) -> AlertAction {
    AlertAction { level: classify(state, reading), sound_alert: sounds(state, reading) }
}

/// The state after an evaluation. A burst is counted, a nominal reading clears
/// the count, and a reading in between leaves it as it is.
pub open spec fn next_state(state: AlertState, reading: u32) -> AlertState {
    AlertState {
        buzzer_count: match classify(state, reading) {
            AlertLevel::RedAlerting => if state.buzzer_count < MAX_BURSTS {
                (state.buzzer_count + 1) as u16
            } else {
                state.buzzer_count
            },
            AlertLevel::Green => 0,
            _ => state.buzzer_count,
        },
        ..state
    }
}

/// The CO2 alert: three thresholds, fixed when it is made, and the burst count.
pub struct CO2alert {
    warning_level_1: u32,
    warning_level_2: u32,
    limit_level: u32,
    buzzer_count: u16,
}

impl View for CO2alert {
    type V = AlertState;

    closed spec fn view(&self) -> AlertState {
        AlertState {
            warning_level_1: self.warning_level_1,
            warning_level_2: self.warning_level_2,
            limit_level: self.limit_level,
            buzzer_count: self.buzzer_count,
        }
    }
}

impl CO2alert {
    /// The count never passes the cap.
    #[verifier::type_invariant]
    closed spec fn count_is_capped(&self) -> bool {
        self.buzzer_count <= MAX_BURSTS
    }

    /// Makes an alert with the given thresholds and no burst counted. For the
    /// levels to nest, the thresholds rise from the first to the last; this is
    /// left to the caller.
    pub fn init(warning_level_1: u32, warning_level_2: u32, limit_level: u32) -> (r: CO2alert)
        ensures
            r@ == (AlertState { warning_level_1, warning_level_2, limit_level, buzzer_count: 0 }),
    {
        CO2alert { warning_level_1, warning_level_2, limit_level, buzzer_count: 0 }
    }

    /// The number of bursts sounded since the reading was last nominal.
    pub fn buzzer_count(&self) -> (r: u16)
        ensures
            r == self@.buzzer_count,
            r <= MAX_BURSTS,
    {
        proof {
            use_type_invariant(self);
        }
        self.buzzer_count
    }

    /// Evaluates one reading: gives the level to show and whether to sound a
    /// burst, and keeps count of the bursts.
    pub fn check_level(&mut self, current_level: &u32) -> (r: AlertAction)
        ensures
            r == action(old(self)@, *current_level),
            final(self)@ == next_state(old(self)@, *current_level),
            final(self)@.buzzer_count <= MAX_BURSTS,
    {
        proof {
            use_type_invariant(&*self);
        }
        if number_representations::greater_than(*current_level, self.limit_level) {
            let sound_alert = self.buzzer_count < MAX_BURSTS;
            if sound_alert {
                self.buzzer_count += 1;
            }
            AlertAction { level: AlertLevel::RedAlerting, sound_alert }
        } else if number_representations::greater_than(*current_level, self.warning_level_2) {
            AlertAction { level: AlertLevel::Yellow, sound_alert: false }
        } else if number_representations::greater_than(*current_level, self.warning_level_1) {
            AlertAction { level: AlertLevel::Blue, sound_alert: false }
        } else {
            self.buzzer_count = 0;
            AlertAction { level: AlertLevel::Green, sound_alert: false }
        }
    }
}

/// Whether the thresholds rise from the first warning level to the limit.
pub open spec fn thresholds_rise(state: AlertState) -> bool {
    &&& number_representations::greater_than_spec(state.warning_level_2, state.warning_level_1)
    &&& number_representations::greater_than_spec(state.limit_level, state.warning_level_2)
}

/// With rising thresholds the levels are bands that follow one another: each
/// level holds the readings above its own threshold and not above the next one.
pub proof fn levels_are_bands(state: AlertState, reading: u32)
    requires
        thresholds_rise(state),
    ensures
        classify(state, reading) is Green <==> !number_representations::greater_than_spec(
            reading,
            state.warning_level_1,
        ),
        classify(state, reading) is Blue <==> number_representations::greater_than_spec(
            reading,
            state.warning_level_1,
        ) && !number_representations::greater_than_spec(reading, state.warning_level_2),
        classify(state, reading) is Yellow <==> number_representations::greater_than_spec(
            reading,
            state.warning_level_2,
        ) && !number_representations::greater_than_spec(reading, state.limit_level),
        classify(state, reading) is RedAlerting <==> number_representations::greater_than_spec(
            reading,
            state.limit_level,
        ),
{
    if number_representations::greater_than_spec(reading, state.limit_level) {
        number_representations::greater_than_is_transitive(
            reading,
            state.limit_level,
            state.warning_level_2,
        );
    }
    if number_representations::greater_than_spec(reading, state.warning_level_2) {
        number_representations::greater_than_is_transitive(
            reading,
            state.warning_level_2,
            state.warning_level_1,
        );
    }
}

/// The state after a run of evaluations, one for each reading in turn.
pub open spec fn run(state: AlertState, readings: Seq<u32>) -> AlertState
    decreases readings.len(),
{
    if readings.len() == 0 {
        state
    } else {
        next_state(run(state, readings.drop_last()), readings.last())
    }
}

/// The number of bursts sounded during a run of evaluations.
pub open spec fn bursts(state: AlertState, readings: Seq<u32>) -> nat
    decreases readings.len(),
{
    if readings.len() == 0 {
        0
    } else {
        let before = run(state, readings.drop_last());
        bursts(state, readings.drop_last()) + if sounds(before, readings.last()) {
            1nat
        } else {
            0nat
        }
    }
}

/// The thresholds never change, and a count that is at most five stays so.
pub proof fn run_keeps_thresholds_and_bound(state: AlertState, readings: Seq<u32>)
    requires
        state.buzzer_count <= MAX_BURSTS,
    ensures
        run(state, readings).warning_level_1 == state.warning_level_1,
        run(state, readings).warning_level_2 == state.warning_level_2,
        run(state, readings).limit_level == state.limit_level,
        run(state, readings).buzzer_count <= MAX_BURSTS,
    decreases readings.len(),
{
    if readings.len() > 0 {
        run_keeps_thresholds_and_bound(state, readings.drop_last());
    }
}

/// While no reading is nominal, every burst is counted: the count grows by the
/// number of bursts, so a start from zero sounds five bursts at most, however long
/// the readings stay critical.
pub proof fn bursts_are_capped(state: AlertState, readings: Seq<u32>)
    requires
        state.buzzer_count <= MAX_BURSTS,
        forall|i: int|
            0 <= i < readings.len() ==> !(classify(state, #[trigger] readings[i]) is Green),
    ensures
        run(state, readings).buzzer_count == state.buzzer_count + bursts(state, readings),
        bursts(state, readings) <= MAX_BURSTS - state.buzzer_count,
    decreases readings.len(),
{
    if readings.len() > 0 {
        let earlier = readings.drop_last();
        assert forall|i: int| 0 <= i < earlier.len() implies !(classify(
            state,
            #[trigger] earlier[i],
        ) is Green) by {
            assert(earlier[i] == readings[i]);
        }
        bursts_are_capped(state, earlier);
        run_keeps_thresholds_and_bound(state, earlier);
        let before = run(state, earlier);
        assert(classify(before, readings.last()) == classify(state, readings.last()));
    }
}

/// A run of critical readings sounds a burst at each of its first evaluations
/// until five are counted, and none after.
pub proof fn critical_run_counts_up_to_cap(state: AlertState, readings: Seq<u32>)
    requires
        state.buzzer_count <= MAX_BURSTS,
        forall|i: int|
            0 <= i < readings.len() ==> classify(state, #[trigger] readings[i]) is RedAlerting,
    ensures
        state.buzzer_count + readings.len() <= MAX_BURSTS ==> run(state, readings).buzzer_count
            == state.buzzer_count + readings.len(),
        state.buzzer_count + readings.len() > MAX_BURSTS ==> run(state, readings).buzzer_count
            == MAX_BURSTS,
    decreases readings.len(),
{
    if readings.len() > 0 {
        let earlier = readings.drop_last();
        assert forall|i: int| 0 <= i < earlier.len() implies classify(
            state,
            #[trigger] earlier[i],
        ) is RedAlerting by {
            assert(earlier[i] == readings[i]);
        }
        critical_run_counts_up_to_cap(state, earlier);
        run_keeps_thresholds_and_bound(state, earlier);
        let before = run(state, earlier);
        assert(classify(before, readings.last()) == classify(state, readings.last()));
    }
}

} // verus!
