//! One cycle of the audio server's callback: midi input is decoded and
//! handed to the plugin, then the plugin renders the audio once.
use vstd::prelude::*;
use crate::event::{Indexed, RawMidiEvent, SysExEvent, Timed};
use crate::host::{Control, JackHost, OutMessage, StopState};

verus! {

/// A raw midi message as the audio server delivers it for this cycle.
pub struct MidiMessage<'a> {
    pub time: u32,
    pub bytes: &'a [u8],
}

/// A decoded midi input message.
pub enum MidiInEvent<'a> {
    Raw(RawMidiEvent),
    SysEx(SysExEvent<'a>),
}

/// A message of one to three bytes is a raw event, a longer one is a
/// system-exclusive event, an empty one is malformed.
pub open spec fn decodes(bytes: Seq<u8>) -> bool {
    bytes.len() > 0
}

/// Decodes one message; `None` where it is malformed.
pub fn decode<'a>(message: &MidiMessage<'a>) -> (r: Option<MidiInEvent<'a>>)
    ensures
        r is Some <==> decodes(message.bytes@),
        message.bytes@.len() <= 3 ==> (r matches Some(MidiInEvent::Raw(e)) ==> e.view_bytes()
            == message.bytes@),
        message.bytes@.len() <= 3 ==> !(r matches Some(MidiInEvent::SysEx(_))),
        message.bytes@.len() > 3 ==> (r matches Some(MidiInEvent::SysEx(e)) && e.view_bytes()
            == message.bytes@),
{
    if message.bytes.len() <= 3 {
        match RawMidiEvent::try_new(message.bytes) {
            Some(e) => Some(MidiInEvent::Raw(e)),
            None => None,
        }
    } else {
        Some(MidiInEvent::SysEx(SysExEvent::new(message.bytes)))
    }
}

/// What the plugin is handed, as recorded in its log.
pub enum Delivery {
    /// A raw midi event from input port `index` at frame `time`.
    Raw { index: usize, time: u32, bytes: Vec<u8> },
    /// A system-exclusive event from input port `index` at frame `time`.
    SysEx { index: usize, time: u32, bytes: Vec<u8> },
    /// A render call of `frames` frames, with input and output slices of
    /// these lengths, in order.
    Render { inputs: Vec<usize>, outputs: Vec<usize>, frames: usize },
}

/// A delivery as mathematical values.
pub enum Handed {
    Raw(usize, u32, Seq<u8>),
    SysEx(usize, u32, Seq<u8>),
    Render(Seq<nat>, Seq<nat>, usize),
}

pub open spec fn lengths(l: Seq<usize>) -> Seq<nat> {
    Seq::new(l.len(), |i: int| l[i] as nat)
}

pub open spec fn delivery_view(d: Delivery) -> Handed {
    match d {
        Delivery::Raw { index, time, bytes } => Handed::Raw(index, time, bytes@),
        Delivery::SysEx { index, time, bytes } => Handed::SysEx(index, time, bytes@),
        Delivery::Render { inputs, outputs, frames } => Handed::Render(
            lengths(inputs@),
            lengths(outputs@),
            frames,
        ),
    }
}

/// The lengths of read-only slices, in order.
pub open spec fn slice_lengths<S>(slices: Seq<&[S]>) -> Seq<nat> {
    Seq::new(slices.len(), |i: int| slices[i]@.len())
}

/// The lengths of writable slices, in order.
pub open spec fn mut_slice_lengths<S>(slices: Seq<&mut [S]>) -> Seq<nat> {
    Seq::new(slices.len(), |i: int| (*slices[i])@.len())
}

pub open spec fn log_view(log: Seq<Delivery>) -> Seq<Handed> {
    Seq::new(log.len(), |i: int| delivery_view(log[i]))
}

/// The deliveries for the messages of input port `index` that decode, in
/// arrival order.
pub open spec fn port_decoded(index: usize, messages: Seq<MidiMessage>) -> Seq<Handed>
    decreases messages.len(),
{
    if messages.len() == 0 {
        Seq::empty()
    } else {
        let rest = port_decoded(index, messages.drop_last());
        let m = messages.last();
        if decodes(m.bytes@) {
            rest.push(
                if m.bytes@.len() <= 3 {
                    Handed::Raw(index, m.time, m.bytes@)
                } else {
                    Handed::SysEx(index, m.time, m.bytes@)
                },
            )
        } else {
            rest
        }
    }
}

/// The deliveries for all messages that decode, port by port.
pub open spec fn all_decoded(ports: Seq<Vec<MidiMessage>>) -> Seq<Handed>
    decreases ports.len(),
{
    if ports.len() == 0 {
        Seq::empty()
    } else {
        all_decoded(ports.drop_last()) + port_decoded((ports.len() - 1) as usize, ports.last()@)
    }
}

/// A plugin's record of everything it has been handed. It exists for
/// contracts only: nothing calls it while the session runs.
pub trait Deliveries {
    spec fn deliveries(&self) -> Vec<Delivery>;

    /// How many times the plugin has asked its host to stop.
    spec fn stops(&self) -> usize;
}

/// A plugin call took the plugin from `before` to `after` and the context
/// from `ctx_before` to `ctx_after`: the context has a stop request exactly
/// when it had one already or the plugin asked for one during the call.
pub open spec fn stop_follows<P: Deliveries + ?Sized, C: StopState + ?Sized>(
    before: &P,
    after: &P,
    ctx_before: &C,
    ctx_after: &C,
) -> bool {
    &&& after.stops() >= before.stops()
    &&& ctx_after.stop_requested() == (ctx_before.stop_requested() || after.stops() > before.stops())
}

/// A midi input event as the delivery that it makes.
pub trait MidiInput {
    spec fn handed(&self) -> Handed;
}

impl MidiInput for Indexed<Timed<RawMidiEvent>> {
    open spec fn handed(&self) -> Handed {
        Handed::Raw(self.index, self.event.time_in_frames, self.event.event.view_bytes())
    }
}

impl<'a> MidiInput for Indexed<Timed<SysExEvent<'a>>> {
    open spec fn handed(&self) -> Handed {
        Handed::SysEx(self.index, self.event.time_in_frames, self.event.event.view_bytes())
    }
}

/// Handles an event of type `E`, with access to the context `C`.
pub trait ContextualEventHandler<E: MidiInput, C: StopState>: Deliveries {
    fn handle_event(&mut self, event: E, context: &mut C)
        ensures
            stop_follows::<Self, C>(&*old(self), &*final(self), &*old(context), &*final(context)),
            log_view(final(self).deliveries()@) == log_view(old(self).deliveries()@).push(
                event.handed(),
            ),
    ;
}

/// The audio of one cycle: read-only inputs, writable outputs.
pub struct AudioBufferInOut<'i, 'o, 's, S> {
    inputs: &'i [&'s [S]],
    outputs: &'o mut [&'s mut [S]],
    length: usize,
}

impl<'i, 'o, 's, S> AudioBufferInOut<'i, 'o, 's, S> {
    pub closed spec fn inputs_view(&self) -> Seq<&'s [S]> {
        self.inputs@
    }

    pub closed spec fn outputs_view(&self) -> Seq<&'s mut [S]> {
        self.outputs@
    }

    pub closed spec fn outputs_count(&self) -> nat {
        self.outputs@.len()
    }

    pub closed spec fn length_view(&self) -> usize {
        self.length
    }

    pub fn new(inputs: &'i [&'s [S]], outputs: &'o mut [&'s mut [S]], length: usize) -> (r: Self)
        ensures
            r.inputs_view() == inputs@,
            r.outputs_view() == old(outputs)@,
            r.outputs_count() == old(outputs)@.len(),
            r.length_view() == length,
    {
        AudioBufferInOut { inputs, outputs, length }
    }

    pub fn number_of_inputs(&self) -> (r: usize)
        ensures
            r == self.inputs_view().len(),
    {
        self.inputs.len()
    }

    pub fn number_of_outputs(&self) -> (r: usize)
        ensures
            r == self.outputs_count(),
    {
        self.outputs.len()
    }

    pub fn number_of_frames(&self) -> (r: usize)
        ensures
            r == self.length_view(),
    {
        self.length
    }

    pub fn inputs(&self) -> (r: &'i [&'s [S]])
        ensures
            r@ == self.inputs_view(),
    {
        self.inputs
    }

    pub fn outputs(&mut self) -> (r: &mut [&'s mut [S]])
        ensures
            r@ == old(self).outputs_view(),
            final(r)@ == final(self).outputs_view(),
            final(self).inputs_view() == old(self).inputs_view(),
            final(self).length_view() == old(self).length_view(),
    {
        self.outputs
    }
}

/// Renders one cycle of audio, with access to the context `C`.
pub trait ContextualAudioRenderer<S, C: StopState>: Deliveries {
    fn render_buffer(&mut self, buffer: &mut AudioBufferInOut<S>, context: &mut C)
        ensures
            stop_follows::<Self, C>(&*old(self), &*final(self), &*old(context), &*final(context)),
            log_view(final(self).deliveries()@) == log_view(old(self).deliveries()@).push(
                Handed::Render(
                    slice_lengths(old(buffer).inputs_view()),
                    mut_slice_lengths(old(buffer).outputs_view()),
                    old(buffer).length_view(),
                ),
            ),
    ;
}

/// Hands each midi input message that decodes to the plugin, port by port
/// in registration order and, within a port, in arrival order, tagged with
/// the port's index. A malformed message is dropped and the others still
/// go through.
pub fn handle_events<'e, P, C: StopState>(
    midi_in_ports: &Vec<Vec<MidiMessage<'e>>>,
    plugin: &mut P,
    context: &mut C,
) where
    P: ContextualEventHandler<Indexed<Timed<RawMidiEvent>>, C> + ContextualEventHandler<
        Indexed<Timed<SysExEvent<'e>>>,
        C,
    >,

    ensures
        log_view(final(plugin).deliveries()@) == log_view(old(plugin).deliveries()@) + all_decoded(
            midi_in_ports@,
        ),
        stop_follows::<P, C>(&*old(plugin), &*final(plugin), &*old(context), &*final(context)),
{
    let ghost start = log_view(plugin.deliveries()@);
    let ghost p0 = *plugin;
    let ghost c0 = *context;
    let mut index: usize = 0;
    while index < midi_in_ports.len()
        invariant
            0 <= index <= midi_in_ports@.len(),
            log_view(plugin.deliveries()@) == start + all_decoded(midi_in_ports@.subrange(0, index as int)),
            stop_follows::<P, C>(&p0, &*plugin, &c0, &*context),
        decreases midi_in_ports@.len() - index,
    {
        let messages = &midi_in_ports[index];
        let ghost done = all_decoded(midi_in_ports@.subrange(0, index as int));
        proof {
            assert(midi_in_ports@.subrange(0, index as int + 1).drop_last() =~= midi_in_ports@.subrange(0, index as int));
        }
        let mut m: usize = 0;
        while m < messages.len()
            invariant
                0 <= index < midi_in_ports@.len(),
                *messages == midi_in_ports@[index as int],
                0 <= m <= messages@.len(),
                done == all_decoded(midi_in_ports@.subrange(0, index as int)),
                log_view(plugin.deliveries()@) == start + done + port_decoded(index, messages@.subrange(0, m as int)),
                stop_follows::<P, C>(&p0, &*plugin, &c0, &*context),
            decreases messages@.len() - m,
        {
            let message = &messages[m];
            proof {
                assert(messages@.subrange(0, m as int + 1).drop_last() =~= messages@.subrange(0, m as int));
            }
            match decode(message) {
                Some(MidiInEvent::Raw(raw)) => {
                    let event = Indexed {
                        index,
                        event: Timed { time_in_frames: message.time, event: raw },
                    };
                    plugin.handle_event(event, context);
                },
                Some(MidiInEvent::SysEx(sysex)) => {
                    let event = Indexed {
                        index,
                        event: Timed { time_in_frames: message.time, event: sysex },
                    };
                    plugin.handle_event(event, context);
                },
                None => {},
            }
            m = m + 1;
        }
        assert(messages@.subrange(0, m as int) =~= messages@);
        index = index + 1;
    }
    assert(midi_in_ports@.subrange(0, index as int) =~= midi_in_ports@);
}

/// One cycle of the callback. The host for the cycle is made fresh, every
/// midi input message that decodes is handed to the plugin, and only then
/// does the plugin render `frames` frames of audio, once. Returns what the
/// session should do next, `Control::Quit` exactly when the plugin asked the
/// host to stop during this cycle, `Control::Continue` otherwise.
pub fn process<'c, 'mp, 'e, 'i, 'o, 's, S, P, Cl>(
    plugin: &mut P,
    client: &'c Cl,
    midi_in_ports: &Vec<Vec<MidiMessage<'e>>>,
    midi_out_ports: &'mp mut Vec<Vec<OutMessage>>,
    inputs: &'i [&'s [S]],
    outputs: &'o mut [&'s mut [S]],
    frames: usize,
) -> (r: Control) where
    P: ContextualEventHandler<Indexed<Timed<RawMidiEvent>>, JackHost<'c, 'mp, Cl>>
        + ContextualEventHandler<Indexed<Timed<SysExEvent<'e>>>, JackHost<'c, 'mp, Cl>>
        + ContextualAudioRenderer<S, JackHost<'c, 'mp, Cl>>,

    ensures
        log_view(final(plugin).deliveries()@) == log_view(old(plugin).deliveries()@) + all_decoded(
            midi_in_ports@,
        ).push(Handed::Render(slice_lengths(inputs@), mut_slice_lengths(old(outputs)@), frames)),
        final(plugin).stops() >= old(plugin).stops(),
        r == Control::Quit <==> final(plugin).stops() > old(plugin).stops(),
{
    let mut host = JackHost::new(client, midi_out_ports);
    handle_events(midi_in_ports, plugin, &mut host);
    let mut buffer = AudioBufferInOut::new(inputs, outputs, frames);
    plugin.render_buffer(&mut buffer, &mut host);
    host.control()
}

} // verus!
