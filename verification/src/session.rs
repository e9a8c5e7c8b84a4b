//! The session's decision logic: one step of the outbound loop (one typed
//! line, one effect) and one step of the inbound loop (one read event, one
//! action). The loops themselves, the socket and the terminal live outside
//! the library; they hand lines and read results in and carry effects out.

use crate::codec::b64_of;
use crate::codec::decoded_payload;
use crate::codec::encode_input;
use crate::codec::Setting;
use crate::command::parse_line;
use crate::command::spec_parse;
use crate::command::Command;
use crate::command::Directive;
use crate::filter::render;
use crate::filter::rendering_views;
use crate::filter::spec_renderings;
use crate::filter::OutputSet;
use crate::filter::Rendering;
use vstd::prelude::*;

verus! {

/// The mutable state of an interactive session: the input encoding under
/// which typed payload is interpreted, and the set of output encodings in
/// which received bytes are rendered.
#[derive(Copy, Clone, PartialEq, Eq, Structural, Debug)]
pub struct SessionState {
    pub input: Setting,
    pub output: OutputSet,
}

impl SessionState {
    /// A fresh session: the chosen starting input encoding, all output
    /// renderings enabled.
    pub fn new(input: Setting) -> (r: SessionState)
        ensures
            r.input == input,
            r.output == (OutputSet { utf8: true, hex: true, b64: true }),
    {
        SessionState { input, output: OutputSet::full() }
    }
}

/// What one handled line obliges the caller to do: print something, or
/// write payload bytes to the connection. At most one effect per line.
pub enum Effect {
    /// Print the usage message.
    ShowHelp,
    /// Print the malformed-command diagnostic.
    ShowMalformed,
    /// Print these renderings; nothing is sent.
    ShowPreview { lines: Vec<Rendering> },
    /// Write these bytes to the connection.
    Transmit { payload: Vec<u8> },
    /// Print the diagnostic for text that does not decode under the named
    /// input encoding; nothing is sent and no state changes.
    ShowDecodeError { setting: Setting },
    /// The output set was replaced; print it.
    ShowOutputSet { set: OutputSet },
    /// The input encoding was changed; announce it.
    ShowInputChanged { setting: Setting },
}

/// Handle one trimmed operator line: parse it, update the session state
/// where it is a well-formed control command, and return the one effect it
/// calls for. Payload text is decoded under the input encoding in force
/// before this line.
pub fn handle_line(state: &mut SessionState, line: &str) -> (e: Effect)
    ensures
        spec_parse(line@) is Help ==> e is ShowHelp && *final(state) == *old(state),
        spec_parse(line@) is Malformed ==> e is ShowMalformed && *final(state) == *old(state),
        spec_parse(line@) matches Directive::SetOutput { set } ==> e matches
            Effect::ShowOutputSet { set: shown } && shown == set && final(state).output == set
            && final(state).input == old(state).input,
        spec_parse(line@) matches Directive::SetInput { setting } ==> e matches
            Effect::ShowInputChanged { setting: shown } && shown == setting
            && final(state).input == setting && final(state).output == old(state).output,
        spec_parse(line@) matches Directive::EnableOne { setting } ==> e matches
            Effect::ShowOutputSet { set: shown } && shown == final(state).output
            && final(state).output == old(state).output.spec_with(setting, true)
            && final(state).input == old(state).input,
        spec_parse(line@) matches Directive::DisableOne { setting } ==> e matches
            Effect::ShowOutputSet { set: shown } && shown == final(state).output
            && final(state).output == old(state).output.spec_with(setting, false)
            && final(state).input == old(state).input,
        spec_parse(line@) matches Directive::Send { text } ==> *final(state) == *old(state)
            && match decoded_payload(text, old(state).input) {
            Some(b) => e matches Effect::Transmit { payload } && payload@ == b,
            None => e matches Effect::ShowDecodeError { setting } && setting == old(state).input,
        },
        spec_parse(line@) matches Directive::Send { text } ==> (old(state).input is Base64
            ==> forall|orig: Seq<u8>|
            text == b64_of(orig) ==> (e matches Effect::Transmit { payload } && payload@
                == orig)),
        spec_parse(line@) matches Directive::Preview { text } ==> *final(state) == *old(state)
            && match decoded_payload(text, old(state).input) {
            Some(b) => e matches Effect::ShowPreview { lines } && rendering_views(lines@)
                == spec_renderings(b, old(state).output),
            None => e matches Effect::ShowDecodeError { setting } && setting == old(state).input,
        },
{
    match parse_line(line) {
        Command::Help => Effect::ShowHelp,
        Command::Malformed => Effect::ShowMalformed,
        Command::SetOutput { set } => {
            state.output = set;
            Effect::ShowOutputSet { set }
        },
        Command::SetInput { setting } => {
            state.input = setting;
            Effect::ShowInputChanged { setting }
        },
        Command::EnableOne { setting } => {
            state.output.set_enabled(setting, true);
            Effect::ShowOutputSet { set: state.output }
        },
        Command::DisableOne { setting } => {
            state.output.set_enabled(setting, false);
            Effect::ShowOutputSet { set: state.output }
        },
        Command::Send { text } => match encode_input(text.as_str(), state.input) {
            Some(payload) => Effect::Transmit { payload },
            None => Effect::ShowDecodeError { setting: state.input },
        },
        Command::Preview { text } => match encode_input(text.as_str(), state.input) {
            Some(b) => Effect::ShowPreview { lines: render(b.as_slice(), &state.output) },
            None => Effect::ShowDecodeError { setting: state.input },
        },
    }
}

/// One read result of the connection's inbound side, as the caller saw it:
/// a chunk of bytes, or the end of the stream (a clean close, a zero-length
/// read, or a read error).
pub enum ReadEvent {
    Data { bytes: Vec<u8> },
    Ended,
}

/// What one inbound step obliges the caller to do.
pub enum InboundAction {
    /// Print these renderings and keep reading.
    Show { lines: Vec<Rendering> },
    /// Report the end of the connection once and stop reading.
    Stop,
}

/// Handle one inbound read result: a data chunk is rendered once under the
/// current output set; the end of the stream stops the loop, so that its
/// diagnostic is printed exactly once.
pub fn inbound_step(out: &OutputSet, ev: &ReadEvent) -> (a: InboundAction)
    ensures
        ev matches ReadEvent::Data { bytes } ==> a matches InboundAction::Show { lines }
            && rendering_views(lines@) == spec_renderings(bytes@, *out),
        ev is Ended ==> a is Stop,
{
    match ev {
        ReadEvent::Data { bytes } => InboundAction::Show {
            lines: render(bytes.as_slice(), out),
        },
        ReadEvent::Ended => InboundAction::Stop,
    }
}

} // verus!
