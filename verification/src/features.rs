//! Terminal features: colors, echo and raw mode.
use vstd::prelude::*;

use crate::info::Capabilities;

verus! {

/// The line settings of a terminal that the library changes.
#[derive(Clone, Copy, Debug, PartialEq, Eq, Structural)]
pub struct Mode {
    /// Input characters are echoed (`ECHO`).
    pub echo: bool,
    /// Input is read line by line (`ICANON`).
    pub canonical: bool,
    /// Interrupt, quit and suspend characters raise signals (`ISIG`).
    pub signals: bool,
    /// Implementation-defined input processing is on (`IEXTEN`).
    pub extended: bool,
    /// The terminal sends start and stop characters to control input (`IXOFF`).
    pub input_flow: bool,
    /// Start and stop characters control output (`IXON`).
    pub output_flow: bool,
    /// The minimum number of characters a read waits for (`VMIN`).
    pub min: u8,
    /// The time a read waits, in tenths of a second (`VTIME`).
    pub time: u8,
}

/// The line settings after turning echo on or off.
pub open spec fn echo_mode(state: Mode, value: bool) -> Mode {
    Mode { echo: value, ..state }
}

/// The line settings after turning raw mode on or off: on turns line
/// reading, signals, extended processing and flow control off and makes
/// reads wait for one character without a time limit; off turns line
/// reading, signals, extended processing and flow control back on.
pub open spec fn raw_mode(state: Mode, value: bool) -> Mode {
    if value {
        Mode {
            canonical: false,
            signals: false,
            extended: false,
            input_flow: false,
            output_flow: false,
            min: 1,
            time: 0,
            ..state
        }
    } else {
        Mode { canonical: true, signals: true, extended: true, input_flow: true, output_flow: true, ..state }
    }
}

/// Echo and raw mode are independent settings: changing one never changes
/// the other, and the two changes may come in either order.
pub proof fn lemma_echo_raw_independent(state: Mode, echo: bool, raw: bool)
    ensures
        raw_mode(state, raw).echo == state.echo,
        raw_mode(echo_mode(state, echo), raw) == echo_mode(raw_mode(state, raw), echo),
        echo_mode(state, echo) == (Mode { echo, ..state }),
{
}

/// Leaving raw mode restores line reading, signals, extended processing and
/// flow control, and keeps the read settings raw mode chose.
pub proof fn lemma_raw_round_trip(state: Mode)
    ensures
        raw_mode(raw_mode(state, true), false) == (Mode { min: 1, time: 0, ..raw_mode(state, false) }),
        raw_mode(raw_mode(state, true), false).echo == state.echo,
{
}

/// Raw mode on turns line reading, signals, extended processing and both
/// kinds of flow control off and makes a read wait for one character with no
/// time limit; off turns the five back on and keeps the read settings; echo
/// on or off changes echo alone. The number of colors is unlimited where the
/// description reports the true color flag, else `max_colors`, else one.
pub proof fn lemma_mode_settings(state: Mode, value: bool, info: &Capabilities)
    ensures
        !raw_mode(state, true).canonical && !raw_mode(state, true).signals && !raw_mode(state, true).extended,
        !raw_mode(state, true).input_flow && !raw_mode(state, true).output_flow,
        raw_mode(state, true).min == 1 && raw_mode(state, true).time == 0,
        raw_mode(state, false).canonical && raw_mode(state, false).signals && raw_mode(state, false).extended,
        raw_mode(state, false).input_flow && raw_mode(state, false).output_flow,
        raw_mode(state, false).min == state.min && raw_mode(state, false).time == state.time,
        raw_mode(state, value).echo == state.echo,
        echo_mode(state, value).echo == value,
        echo_mode(state, value).canonical == state.canonical && echo_mode(state, value).signals == state.signals,
        echo_mode(state, value).extended == state.extended && echo_mode(state, value).input_flow == state.input_flow,
        echo_mode(state, value).output_flow == state.output_flow && echo_mode(state, value).min == state.min,
        echo_mode(state, value).time == state.time,
        info.true_color is Some ==> colors_of(info) is None,
        info.true_color is None ==> colors_of(info) == Some(if info.max_colors is Some { info.max_colors.unwrap() } else { 1i16 }),
{
}

/// The number of colors a description reports: none (no limit) where it
/// reports the true color flag at all, else its `max_colors`, else one.
pub open spec fn colors_of(info: &Capabilities) -> Option<i16> {
    if info.true_color is Some {
        None
    } else {
        match info.max_colors {
            Some(n) => Some(n),
            None => Some(1),
        }
    }
}

/// The features of a terminal with the description `info` and the line
/// settings `state`.
pub struct Features<'a> {
    pub info: &'a Capabilities,
    pub state: Mode,
}

impl<'a> Features<'a> {
    /// The features of a terminal with the description `info` and the line
    /// settings `state`.
    pub fn new(info: &'a Capabilities, state: Mode) -> (r: Features<'a>)
        ensures
            r.info == info,
            r.state == state,
    {
        Features { info, state }
    }

    /// The number of colors, `None` signifying no limit, usually due to true
    /// color support.
    pub fn colors(&self) -> (r: Option<i16>)
        ensures
            r == colors_of(self.info),
    {
        if self.info.true_color.is_some() {
            None
        } else {
            match self.info.max_colors {
                Some(n) => Some(n),
                None => Some(1),
            }
        }
    }

    /// Change the echo mode.
    pub fn echo(&mut self, value: bool)
        ensures
            final(self).info == old(self).info,
            final(self).state == echo_mode(old(self).state, value),
    {
        self.state.echo = value;
    }

    /// Change the raw mode.
    pub fn raw(&mut self, value: bool)
        ensures
            final(self).info == old(self).info,
            final(self).state == raw_mode(old(self).state, value),
    {
        if value {
            self.state.canonical = false;
            self.state.signals = false;
            self.state.extended = false;
            self.state.input_flow = false;
            self.state.output_flow = false;
            self.state.min = 1;
            self.state.time = 0;
        } else {
            self.state.signals = true;
            self.state.canonical = true;
            self.state.extended = true;
            self.state.input_flow = true;
            self.state.output_flow = true;
        }
    }
}

} // verus!
