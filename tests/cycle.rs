use rsynth::bridge::{
    decode, handle_events, process, AudioBufferInOut, ContextualAudioRenderer,
    ContextualEventHandler, Deliveries, Delivery, MidiInEvent, MidiMessage,
};
use rsynth::event::{Indexed, RawMidiEvent, SysExEvent, Timed};
use rsynth::host::{Control, EventHandler, JackHost, OutMessage};

#[derive(Debug, PartialEq)]
enum Call {
    Raw(usize, u32, Vec<u8>),
    SysEx(usize, u32, Vec<u8>),
    Render(usize, usize, Vec<usize>, Vec<usize>, usize),
}

struct Recorder {
    calls: Vec<Call>,
    stop_in_render: bool,
    echo_to: Option<usize>,
    stops: usize,
}

impl Recorder {
    fn new() -> Self {
        Recorder { calls: Vec::new(), stop_in_render: false, echo_to: None, stops: 0 }
    }
}

impl Deliveries for Recorder {
    fn stops(&self) -> usize {
        self.stops
    }

    fn deliveries(&self) -> Vec<Delivery> {
        self.calls
            .iter()
            .map(|c| match c {
                Call::Raw(index, time, bytes) => {
                    Delivery::Raw { index: *index, time: *time, bytes: bytes.clone() }
                }
                Call::SysEx(index, time, bytes) => {
                    Delivery::SysEx { index: *index, time: *time, bytes: bytes.clone() }
                }
                Call::Render(_, _, inputs, outputs, frames) => Delivery::Render {
                    inputs: inputs.clone(),
                    outputs: outputs.clone(),
                    frames: *frames,
                },
            })
            .collect()
    }
}

impl<'c, 'mp, Cl> ContextualEventHandler<Indexed<Timed<RawMidiEvent>>, JackHost<'c, 'mp, Cl>>
    for Recorder
{
    fn handle_event(
        &mut self,
        event: Indexed<Timed<RawMidiEvent>>,
        context: &mut JackHost<'c, 'mp, Cl>,
    ) {
        let bytes = event.event.event.bytes().to_vec();
        if let Some(port) = self.echo_to {
            context.write_midi(port, event.event.time_in_frames, &bytes);
        }
        self.calls.push(Call::Raw(event.index, event.event.time_in_frames, bytes));
    }
}

impl<'c, 'mp, 'e, Cl> ContextualEventHandler<Indexed<Timed<SysExEvent<'e>>>, JackHost<'c, 'mp, Cl>>
    for Recorder
{
    fn handle_event(
        &mut self,
        event: Indexed<Timed<SysExEvent<'e>>>,
        _context: &mut JackHost<'c, 'mp, Cl>,
    ) {
        let bytes = event.event.event.data().to_vec();
        self.calls.push(Call::SysEx(event.index, event.event.time_in_frames, bytes));
    }
}

impl<'c, 'mp, Cl> ContextualAudioRenderer<f32, JackHost<'c, 'mp, Cl>> for Recorder {
    fn render_buffer(
        &mut self,
        buffer: &mut AudioBufferInOut<f32>,
        context: &mut JackHost<'c, 'mp, Cl>,
    ) {
        let ins: Vec<usize> = buffer.inputs().iter().map(|s| s.len()).collect();
        let frames = buffer.number_of_frames();
        let outs: Vec<usize> = buffer.outputs().iter().map(|s| s.len()).collect();
        for out in buffer.outputs().iter_mut() {
            for x in out.iter_mut() {
                *x = 0.5;
            }
        }
        if self.stop_in_render {
            context.stop();
            self.stops += 1;
        }
        self.calls.push(Call::Render(
            buffer.number_of_inputs(),
            buffer.number_of_outputs(),
            ins,
            outs,
            frames,
        ));
    }
}

#[test]
fn raw_event_takes_one_to_three_bytes() {
    assert!(RawMidiEvent::try_new(&[]).is_none());
    assert_eq!(RawMidiEvent::try_new(&[0xF8]).unwrap().bytes(), &[0xF8]);
    assert_eq!(RawMidiEvent::try_new(&[0x90, 60, 100]).unwrap().bytes(), &[0x90, 60, 100]);
    assert!(RawMidiEvent::try_new(&[0xF0, 1, 2, 0xF7]).is_none());
}

#[test]
fn decode_sorts_messages_by_length() {
    let short = [0x80u8, 60, 0];
    let long = [0xF0u8, 1, 2, 3, 4, 0xF7];
    let empty: [u8; 0] = [];
    match decode(&MidiMessage { time: 0, bytes: &short }) {
        Some(MidiInEvent::Raw(e)) => assert_eq!(e.bytes(), &short),
        _ => panic!("expected a raw event"),
    }
    match decode(&MidiMessage { time: 0, bytes: &long }) {
        Some(MidiInEvent::SysEx(e)) => assert_eq!(e.data(), &long),
        _ => panic!("expected a sys-ex event"),
    }
    assert!(decode(&MidiMessage { time: 0, bytes: &empty }).is_none());
}

#[test]
fn one_cycle_dispatches_then_renders_once() {
    let raw = [0x90u8, 64, 127];
    let sysex = [0xF0u8, 0x7E, 0x00, 0x06, 0x01, 0xF7];
    let midi_in = vec![vec![
        MidiMessage { time: 10, bytes: &raw },
        MidiMessage { time: 20, bytes: &sysex },
    ]];
    let mut midi_out: Vec<Vec<OutMessage>> = vec![Vec::new()];
    let in0 = [0.0f32; 64];
    let in1 = [0.0f32; 64];
    let mut out0 = [0.0f32; 64];
    let mut out1 = [0.0f32; 64];
    let inputs: [&[f32]; 2] = [&in0, &in1];
    let mut outputs: [&mut [f32]; 2] = [&mut out0, &mut out1];
    let client = ();
    let mut plugin = Recorder::new();
    let control =
        process(&mut plugin, &client, &midi_in, &mut midi_out, &inputs, &mut outputs, 64);
    assert_eq!(control, Control::Continue);
    assert_eq!(
        plugin.calls,
        vec![
            Call::Raw(0, 10, raw.to_vec()),
            Call::SysEx(0, 20, sysex.to_vec()),
            Call::Render(2, 2, vec![64, 64], vec![64, 64], 64),
        ]
    );
    assert_eq!(out0[0], 0.5);
    assert_eq!(out1[63], 0.5);
}

#[test]
fn stop_inside_render_ends_session_after_cycle() {
    let midi_in: Vec<Vec<MidiMessage>> = vec![];
    let mut midi_out: Vec<Vec<OutMessage>> = vec![];
    let inputs: [&[f32]; 0] = [];
    let mut outputs: [&mut [f32]; 0] = [];
    let client = ();
    let mut plugin = Recorder::new();
    plugin.stop_in_render = true;
    let control =
        process(&mut plugin, &client, &midi_in, &mut midi_out, &inputs, &mut outputs, 32);
    assert_eq!(control, Control::Quit);
    assert_eq!(plugin.stops(), 1);
    assert_eq!(plugin.calls, vec![Call::Render(0, 0, vec![], vec![], 32)]);
}

#[test]
fn malformed_message_does_not_stop_later_ones() {
    let empty: [u8; 0] = [];
    let a = [0x90u8, 1, 2];
    let b = [0x80u8, 1];
    let c = [0xF0u8, 1, 2, 3, 0xF7];
    let midi_in = vec![
        vec![MidiMessage { time: 0, bytes: &empty }, MidiMessage { time: 1, bytes: &a }],
        vec![],
        vec![MidiMessage { time: 2, bytes: &b }, MidiMessage { time: 3, bytes: &c }],
    ];
    let mut midi_out: Vec<Vec<OutMessage>> = vec![];
    let client = 7u32;
    let mut host = JackHost::new(&client, &mut midi_out);
    let mut plugin = Recorder::new();
    handle_events(&midi_in, &mut plugin, &mut host);
    assert_eq!(
        plugin.calls,
        vec![
            Call::Raw(0, 1, a.to_vec()),
            Call::Raw(2, 2, b.to_vec()),
            Call::SysEx(2, 3, c.to_vec()),
        ]
    );
}

#[test]
fn write_to_missing_port_changes_no_buffer() {
    let mut midi_out: Vec<Vec<OutMessage>> = vec![Vec::new(), Vec::new()];
    let client = ();
    {
        let mut host = JackHost::new(&client, &mut midi_out);
        host.write_midi(1, 5, &[0x90, 60, 1]);
        host.write_midi(2, 6, &[0x80, 60, 0]);
        host.write_midi(usize::MAX, 7, &[0x80, 60, 0]);
        assert_eq!(host.control(), Control::Continue);
    }
    assert_eq!(midi_out[0].len(), 0);
    assert_eq!(midi_out[1].len(), 1);
    assert_eq!(midi_out[1][0].time, 5);
    assert_eq!(midi_out[1][0].bytes, vec![0x90, 60, 1]);
}

#[test]
fn host_forwards_events_to_output_ports() {
    let mut midi_out: Vec<Vec<OutMessage>> = vec![Vec::new()];
    let client = ();
    let long = [0xF0u8, 1, 2, 3, 0xF7];
    {
        let mut host = JackHost::new(&client, &mut midi_out);
        let raw = RawMidiEvent::try_new(&[0xB0, 7, 100]).unwrap();
        host.handle_event(Indexed { index: 0, event: Timed { time_in_frames: 3, event: raw } });
        host.handle_event(Indexed {
            index: 0,
            event: Timed { time_in_frames: 9, event: SysExEvent::new(&long) },
        });
        host.handle_event(Indexed { index: 4, event: Timed { time_in_frames: 1, event: raw } });
        assert!(!host.output_initialized());
        assert_eq!(*host.client(), ());
    }
    assert_eq!(midi_out[0].len(), 2);
    assert_eq!(midi_out[0][0].bytes, vec![0xB0, 7, 100]);
    assert_eq!(midi_out[0][1].time, 9);
    assert_eq!(midi_out[0][1].bytes, long.to_vec());
}

#[test]
fn plugin_writes_midi_during_events() {
    let raw = [0x90u8, 64, 127];
    let midi_in = vec![vec![MidiMessage { time: 4, bytes: &raw }]];
    let mut midi_out: Vec<Vec<OutMessage>> = vec![Vec::new()];
    let inputs: [&[f32]; 0] = [];
    let mut outputs: [&mut [f32]; 0] = [];
    let client = ();
    let mut plugin = Recorder::new();
    plugin.echo_to = Some(0);
    let control =
        process(&mut plugin, &client, &midi_in, &mut midi_out, &inputs, &mut outputs, 8);
    assert_eq!(control, Control::Continue);
    assert_eq!(midi_out[0].len(), 1);
    assert_eq!(midi_out[0][0].time, 4);
    assert_eq!(midi_out[0][0].bytes, raw.to_vec());
}

#[test]
fn deliveries_list_events_then_render() {
    let raw = [0x90u8, 64, 127];
    let midi_in = vec![vec![MidiMessage { time: 10, bytes: &raw }]];
    let mut midi_out: Vec<Vec<OutMessage>> = vec![];
    let inputs: [&[f32]; 0] = [];
    let mut outputs: [&mut [f32]; 0] = [];
    let client = ();
    let mut plugin = Recorder::new();
    process(&mut plugin, &client, &midi_in, &mut midi_out, &inputs, &mut outputs, 16);
    let log = plugin.deliveries();
    assert_eq!(log.len(), 2);
    match &log[0] {
        Delivery::Raw { index, time, bytes } => {
            assert_eq!((*index, *time, bytes.clone()), (0, 10, raw.to_vec()))
        }
        _ => panic!("expected a raw delivery first"),
    }
    match &log[1] {
        Delivery::Render { inputs, outputs, frames } => {
            assert_eq!((inputs.clone(), outputs.clone(), *frames), (vec![], vec![], 16))
        }
        _ => panic!("expected the render last"),
    }
}
