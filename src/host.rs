//! The context that a plugin sees during one cycle: it can ask the session
//! to stop and it can write midi to the output ports.
use vstd::prelude::*;
use crate::event::{Indexed, RawMidiEvent, SysExEvent, Timed};

verus! {

/// What the session does after the current cycle.
#[derive(Clone, Copy, Debug, PartialEq, Eq, Structural)]
pub enum Control {
    Continue,
    Quit,
}

/// A midi message written to an output port during this cycle.
pub struct OutMessage {
    pub time: u32,
    pub bytes: Vec<u8>,
}

/// The content of an output port's buffer: each message as time and bytes.
pub open spec fn port_view(port: Seq<OutMessage>) -> Seq<(u32, Seq<u8>)> {
    Seq::new(port.len(), |i: int| (port[i].time, port[i].bytes@))
}

/// The content of all output ports' buffers.
pub open spec fn ports_view(ports: Seq<Vec<OutMessage>>) -> Seq<Seq<(u32, Seq<u8>)>> {
    Seq::new(ports.len(), |i: int| port_view(ports[i]@))
}

/// The output ports after writing `bytes` at `time` to port `index`: the
/// message is appended there, and where there is no such port nothing changes.
pub open spec fn written(
    ports: Seq<Seq<(u32, Seq<u8>)>>,
    index: usize,
    time: u32,
    bytes: Seq<u8>,
) -> Seq<Seq<(u32, Seq<u8>)>> {
    if index < ports.len() {
        ports.update(index as int, ports[index as int].push((time, bytes)))
    } else {
        ports
    }
}

/// Handles an event of type `E`.
pub trait EventHandler<E> {
    /// Whether handling `event` takes the handler from `self` to `after`.
    spec fn handles(&self, after: &Self, event: &E) -> bool;

    fn handle_event(&mut self, event: E)
        ensures
            old(self).handles(&*final(self), &event),
    ;
}

/// A context that a plugin can ask to stop the session.
pub trait StopState {
    /// Whether a stop has been asked for.
    spec fn stop_requested(&self) -> bool;
}

/// Used to communicate with the audio server during one cycle. The plugin
/// gets it as the context of its render and event calls.
pub struct JackHost<'c, 'mp, Cl> {
    client: &'c Cl,
    midi_out_ports: &'mp mut Vec<Vec<OutMessage>>,
    control: Control,
}

fn copy_bytes(bytes: &[u8]) -> (r: Vec<u8>)
    ensures
        r@ == bytes@,
{
    let mut r: Vec<u8> = Vec::with_capacity(bytes.len());
    let mut i: usize = 0;
    while i < bytes.len()
        invariant
            0 <= i <= bytes@.len(),
            r@ == bytes@.subrange(0, i as int),
        decreases bytes@.len() - i,
    {
        r.push(bytes[i]);
        i = i + 1;
        assert(r@ =~= bytes@.subrange(0, i as int));
    }
    assert(r@ =~= bytes@);
    r
}

impl<'c, 'mp, Cl> JackHost<'c, 'mp, Cl> {
    /// The client that this host hands out.
    pub closed spec fn client_view(&self) -> &'c Cl {
        self.client
    }

    pub closed spec fn control_view(&self) -> Control {
        self.control
    }

    /// What the midi output ports hold so far in this cycle.
    pub closed spec fn midi_out(&self) -> Seq<Seq<(u32, Seq<u8>)>> {
        ports_view(self.midi_out_ports@)
    }

    /// A host for one cycle, writing midi into `midi_out_ports`, with
    /// `Control::Continue` until the plugin stops it.
    pub fn new(client: &'c Cl, midi_out_ports: &'mp mut Vec<Vec<OutMessage>>) -> (r: Self)
        ensures
            r.control_view() == Control::Continue,
            r.client_view() == client,
            r.midi_out() == ports_view(old(midi_out_ports)@),
    {
        JackHost { client, midi_out_ports, control: Control::Continue }
    }

    /// Gives access to the underlying client so that server-specific
    /// features can be used.
    pub fn client(&self) -> (r: &'c Cl)
        ensures
            r == self.client_view(),
    {
        self.client
    }

    /// Output is never initialised by this host.
    pub fn output_initialized(&self) -> (r: bool)
        ensures
            !r,
    {
        false
    }

    /// Asks the session to stop once this cycle is over. The cycle itself
    /// goes on to its end.
    pub fn stop(&mut self)
        ensures
            final(self).control_view() == Control::Quit,
            final(self).client_view() == old(self).client_view(),
            final(self).midi_out() == old(self).midi_out(),
    {
        self.control = Control::Quit;
    }

    /// What the session should do after this cycle.
    pub fn control(&self) -> (r: Control)
        ensures
            r == self.control_view(),
    {
        self.control
    }

    /// Appends a message to the output port `index`. Where there is no such
    /// port, the message is dropped and no buffer changes.
    pub fn write_midi(&mut self, index: usize, time: u32, bytes: &[u8])
        ensures
            final(self).control_view() == old(self).control_view(),
            final(self).client_view() == old(self).client_view(),
            final(self).midi_out() == written(old(self).midi_out(), index, time, bytes@),
    {
        if index < self.midi_out_ports.len() {
            let message = OutMessage { time, bytes: copy_bytes(bytes) };
            let ghost before = self.midi_out_ports@;
            self.midi_out_ports[index].push(message);
            proof {
                assert(port_view(self.midi_out_ports@[index as int]@) =~= port_view(before[index as int]@).push((time, bytes@)));
                assert(ports_view(self.midi_out_ports@) =~= ports_view(before).update(
                    index as int,
                    port_view(before[index as int]@).push((time, bytes@)),
                ));
            }
        }
    }
}

impl<'c, 'mp, Cl> StopState for JackHost<'c, 'mp, Cl> {
    open spec fn stop_requested(&self) -> bool {
        self.control_view() == Control::Quit
    }
}

/// Handling an event writes it to the output port with the event's index.
impl<'c, 'mp, Cl> EventHandler<Indexed<Timed<RawMidiEvent>>> for JackHost<'c, 'mp, Cl> {
    open spec fn handles(&self, after: &Self, event: &Indexed<Timed<RawMidiEvent>>) -> bool {
        &&& after.control_view() == self.control_view()
        &&& after.client_view() == self.client_view()
        &&& after.midi_out() == written(
            self.midi_out(),
            event.index,
            event.event.time_in_frames,
            event.event.event.view_bytes(),
        )
    }

    fn handle_event(&mut self, event: Indexed<Timed<RawMidiEvent>>) {
        let time = event.event.time_in_frames;
        let raw = event.event.event;
        self.write_midi(event.index, time, raw.bytes());
    }
}

impl<'c, 'mp, 'e, Cl> EventHandler<Indexed<Timed<SysExEvent<'e>>>> for JackHost<'c, 'mp, Cl> {
    open spec fn handles(&self, after: &Self, event: &Indexed<Timed<SysExEvent<'e>>>) -> bool {
        &&& after.control_view() == self.control_view()
        &&& after.client_view() == self.client_view()
        &&& after.midi_out() == written(
            self.midi_out(),
            event.index,
            event.event.time_in_frames,
            event.event.event.view_bytes(),
        )
    }

    fn handle_event(&mut self, event: Indexed<Timed<SysExEvent<'e>>>) {
        self.write_midi(event.index, event.event.time_in_frames, event.event.event.data());
    }
}

} // verus!
