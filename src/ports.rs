//! Registering the ports that a plugin asks for.
use vstd::prelude::*;

verus! {

/// Marker for an audio input port.
pub struct AudioIn {
    _private: (),
}

/// Marker for an audio output port.
pub struct AudioOut {
    _private: (),
}

/// Marker for a midi input port.
pub struct MidiIn {
    _private: (),
}

/// Marker for a midi output port.
pub struct MidiOut {
    _private: (),
}

/// The plugin could not give a name for a port.
pub struct PortNameError {
    _private: (),
}

impl PortNameError {
    pub fn new() -> (r: PortNameError) {
        PortNameError { _private: () }
    }
}

/// What a plugin says about its audio ports.
pub trait CommonAudioPortMeta {
    /// The number of audio inputs that the plugin declares.
    spec fn audio_inputs(&self) -> usize;

    /// The number of audio outputs that the plugin declares.
    spec fn audio_outputs(&self) -> usize;

    /// The name of audio input `index`; `None` where the plugin has none.
    spec fn audio_input_name(&self, index: usize) -> Option<String>;

    /// The name of audio output `index`; `None` where the plugin has none.
    spec fn audio_output_name(&self, index: usize) -> Option<String>;

    fn max_number_of_audio_inputs(&self) -> (r: usize)
        ensures
            r == self.audio_inputs(),
    ;

    fn max_number_of_audio_outputs(&self) -> (r: usize)
        ensures
            r == self.audio_outputs(),
    ;

    /// Appends the name of audio input `index` to `name`.
    fn input_name(&self, name: &mut String, index: usize) -> (r: Result<(), PortNameError>)
        ensures
            r is Ok <==> self.audio_input_name(index) is Some,
            r is Ok ==> final(name)@ == old(name)@ + self.audio_input_name(index).unwrap()@,
    ;

    /// Appends the name of audio output `index` to `name`.
    fn output_name(&self, name: &mut String, index: usize) -> (r: Result<(), PortNameError>)
        ensures
            r is Ok <==> self.audio_output_name(index) is Some,
            r is Ok ==> final(name)@ == old(name)@ + self.audio_output_name(index).unwrap()@,
    ;
}

/// What a plugin says about its midi ports.
pub trait CommonMidiPortMeta {
    /// The number of midi inputs that the plugin declares.
    spec fn midi_inputs(&self) -> usize;

    /// The number of midi outputs that the plugin declares.
    spec fn midi_outputs(&self) -> usize;

    /// The name of midi input `index`; `None` where the plugin has none.
    spec fn midi_input_name(&self, index: usize) -> Option<String>;

    /// The name of midi output `index`; `None` where the plugin has none.
    spec fn midi_output_name(&self, index: usize) -> Option<String>;

    fn max_number_of_midi_inputs(&self) -> (r: usize)
        ensures
            r == self.midi_inputs(),
    ;

    fn max_number_of_midi_outputs(&self) -> (r: usize)
        ensures
            r == self.midi_outputs(),
    ;

    /// Appends the name of midi input `index` to `name`.
    fn input_name(&self, name: &mut String, index: usize) -> (r: Result<(), PortNameError>)
        ensures
            r is Ok <==> self.midi_input_name(index) is Some,
            r is Ok ==> final(name)@ == old(name)@ + self.midi_input_name(index).unwrap()@,
    ;

    /// Appends the name of midi output `index` to `name`.
    fn output_name(&self, name: &mut String, index: usize) -> (r: Result<(), PortNameError>)
        ensures
            r is Ok <==> self.midi_output_name(index) is Some,
            r is Ok ==> final(name)@ == old(name)@ + self.midi_output_name(index).unwrap()@,
    ;
}

/// The audio server's side of registration: a port of kind `K` with the
/// given name, as a handle `H`, or `None` when the server refuses it.
pub trait PortRegistrar<K, H> {
    /// The names of all ports asked for so far, in order.
    spec fn requested(&self) -> Vec<String>;

    /// The answers given so far, in order.
    spec fn given(&self) -> Vec<Option<H>>;

    fn register_port(&mut self, name: &String) -> (r: Option<H>)
        ensures
            strings_view(final(self).requested()@) == strings_view(old(self).requested()@).push(name@),
            final(self).given()@ == old(self).given()@.push(r),
    ;
}

/// What each channel got, from the server's `answers` to the named ones in
/// order: the next answer for a named channel, `None` for the others.
pub open spec fn spread<H>(names: Seq<Option<Seq<char>>>, answers: Seq<Option<H>>) -> Seq<Option<H>>
    decreases names.len(),
{
    if names.len() == 0 {
        Seq::empty()
    } else if names.last() is Some {
        spread(names.drop_last(), answers.drop_last()).push(answers.last())
    } else {
        spread(names.drop_last(), answers).push(None)
    }
}

/// A name, if there is one, as characters.
pub open spec fn opt_view(name: Option<String>) -> Option<Seq<char>> {
    match name {
        Some(s) => Some(s@),
        None => None,
    }
}

/// The names of a list of channels; `None` where a channel has no name.
pub open spec fn names_view(names: Seq<Option<String>>) -> Seq<Option<Seq<char>>> {
    Seq::new(names.len(), |i: int| opt_view(names[i]))
}

/// A list of names as characters.
pub open spec fn strings_view(names: Seq<String>) -> Seq<Seq<char>> {
    Seq::new(names.len(), |i: int| names[i]@)
}

/// The names that registration asks the server for: those present, in order.
pub open spec fn present(names: Seq<Option<Seq<char>>>) -> Seq<Seq<char>>
    decreases names.len(),
{
    if names.len() == 0 {
        Seq::empty()
    } else {
        match names.last() {
            Some(n) => present(names.drop_last()).push(n),
            None => present(names.drop_last()),
        }
    }
}

/// A port that was registered for the channel with the given index.
pub struct Registered<H> {
    pub index: usize,
    pub port: H,
}

/// At most one entry per channel: indices strictly increase and stay below `n`.
pub open spec fn indices_within<H>(ports: Seq<Registered<H>>, n: int) -> bool {
    &&& ports.len() <= n
    &&& forall|i: int| 0 <= i < ports.len() ==> ports[i].index < n
    &&& forall|i: int, j: int| 0 <= i < j < ports.len() ==> ports[i].index < ports[j].index
}

/// The ports that registration keeps, from what the server answered for
/// each channel: one entry per `Some`, in channel order, with its index.
pub open spec fn kept<H>(outcomes: Seq<Option<H>>) -> Seq<Registered<H>>
    decreases outcomes.len(),
{
    if outcomes.len() == 0 {
        Seq::empty()
    } else {
        let rest = kept(outcomes.drop_last());
        match outcomes.last() {
            Some(port) => rest.push(Registered { index: (outcomes.len() - 1) as usize, port }),
            None => rest,
        }
    }
}

/// What registration of the channels `names` does to a registrar that goes
/// from `before` to `after`: the server is asked for the named channels, in
/// order and nothing else; the result holds exactly the ports that it gave,
/// each with its channel's index, in channel order.
pub open spec fn registration<K, H, R: PortRegistrar<K, H>>(
    before: R,
    after: R,
    names: Seq<Option<Seq<char>>>,
    r: Seq<Registered<H>>,
) -> bool {
    let given = before.given()@.len();
    &&& strings_view(after.requested()@) == strings_view(before.requested()@) + present(names)
    &&& after.given()@.len() == given + present(names).len()
    &&& after.given()@.subrange(0, given as int) == before.given()@
    &&& r == kept(spread(names, after.given()@.subrange(given as int, after.given()@.len() as int)))
    &&& indices_within(r, names.len() as int)
    &&& forall|i: int| 0 <= i < r.len() ==> (#[trigger] names[r[i].index as int]) is Some
}

/// What `kept` keeps has at most one entry per channel, each for a channel
/// that the server answered with a port.
pub proof fn lemma_kept_indices<H>(outcomes: Seq<Option<H>>)
    requires
        outcomes.len() <= usize::MAX + 1,
    ensures
        indices_within(kept(outcomes), outcomes.len() as int),
        forall|i: int|
            0 <= i < kept(outcomes).len() ==> (#[trigger] outcomes[kept(outcomes)[i].index as int]) is Some,
    decreases outcomes.len(),
{
    if outcomes.len() > 0 {
        let prefix = outcomes.drop_last();
        lemma_kept_indices(prefix);
        assert forall|i: int| 0 <= i < kept(prefix).len() implies #[trigger] outcomes[kept(prefix)[i].index as int] == prefix[kept(prefix)[i].index as int] by {}
    }
}

/// Keeps the ports that the server gave, each with its channel's index.
pub fn keep_registered<H>(outcomes: Vec<Option<H>>) -> (r: Vec<Registered<H>>)
    ensures
        r@ == kept(outcomes@),
{
    let ghost original = outcomes@;
    let mut outcomes = outcomes;
    let n = outcomes.len();
    let mut ports: Vec<Registered<H>> = Vec::new();
    let mut index: usize = 0;
    while index < n
        invariant
            n == original.len(),
            outcomes@.len() == n,
            0 <= index <= n,
            forall|i: int| index <= i < n ==> outcomes@[i] == original[i],
            ports@ == kept(original.subrange(0, index as int)),
        decreases n - index,
    {
        let mut outcome: Option<H> = None;
        core::mem::swap(&mut outcome, &mut outcomes[index]);
        proof {
            assert(original.subrange(0, index as int + 1).drop_last() =~= original.subrange(0, index as int));
        }
        match outcome {
            Some(port) => ports.push(Registered { index, port }),
            None => {},
        }
        index = index + 1;
    }
    assert(original.subrange(0, n as int) =~= original);
    ports
}

/// Registers one port for each channel that has a name, in channel order.
/// A channel without a name, or one that the server refuses, is skipped;
/// nothing is retried.
pub fn register_ports<K, H, R: PortRegistrar<K, H>>(
    registrar: &mut R,
    names: &Vec<Option<String>>,
) -> (r: Vec<Registered<H>>)
    ensures
        registration::<K, H, R>(*old(registrar), *final(registrar), names_view(names@), r@),
{
    let ghost view = names_view(names@);
    let ghost before = strings_view(registrar.requested()@);
    let ghost gb = registrar.given()@;
    let n = names.len();
    let mut outcomes: Vec<Option<H>> = Vec::with_capacity(n);
    let mut index: usize = 0;
    while index < n
        invariant
            n == names@.len(),
            view == names_view(names@),
            0 <= index <= n,
            outcomes@.len() == index,
            forall|i: int| 0 <= i < index && (#[trigger] view[i]) is None ==> outcomes@[i] is None,
            strings_view(registrar.requested()@) == before + present(view.subrange(0, index as int)),
            registrar.given()@.len() == gb.len() + present(view.subrange(0, index as int)).len(),
            registrar.given()@.subrange(0, gb.len() as int) == gb,
            outcomes@ == spread(
                view.subrange(0, index as int),
                registrar.given()@.subrange(gb.len() as int, registrar.given()@.len() as int),
            ),
        decreases n - index,
    {
        let ghost answers = registrar.given()@.subrange(gb.len() as int, registrar.given()@.len() as int);
        proof {
            assert(view.subrange(0, index as int + 1).drop_last() =~= view.subrange(0, index as int));
        }
        let outcome = match &names[index] {
            Some(name) => {
                let o = <R as PortRegistrar<K, H>>::register_port(registrar, name);
                assert(strings_view(registrar.requested()@) =~= before + present(view.subrange(0, index as int + 1)));
                proof {
                    let now = registrar.given()@.subrange(gb.len() as int, registrar.given()@.len() as int);
                    assert(now.drop_last() =~= answers);
                    assert(registrar.given()@.subrange(0, gb.len() as int) =~= gb);
                }
                o
            },
            None => None,
        };
        outcomes.push(outcome);
        index = index + 1;
    }
    assert(view.subrange(0, n as int) =~= view);
    let ghost answers = outcomes@;
    assert(answers == spread(view, registrar.given()@.subrange(gb.len() as int, registrar.given()@.len() as int)));
    proof {
        lemma_kept_indices(answers);
        assert forall|i: int| 0 <= i < kept(answers).len() implies (#[trigger] view[kept(answers)[i].index as int]) is Some by {
            let k = kept(answers)[i].index as int;
            assert(answers[k] is Some);
        }
    }
    keep_registered(outcomes)
}

/// The channels of one kind and direction that a plugin declares.
trait ChannelNames {
    spec fn count(&self) -> usize;

    spec fn name_of(&self, index: usize) -> Option<String>;

    fn declared(&self) -> (r: usize)
        ensures
            r == self.count(),
    ;

    fn lookup(&self, name: &mut String, index: usize) -> (r: Result<(), PortNameError>)
        ensures
            r is Ok <==> self.name_of(index) is Some,
            r is Ok ==> final(name)@ == old(name)@ + self.name_of(index).unwrap()@,
    ;
}

/// Asks for the name of each declared channel, in order.
fn collect_names<N: ChannelNames>(channels: &N) -> (r: Vec<Option<String>>)
    ensures
        names_view(r@) == Seq::new(channels.count() as nat, |i: int| opt_view(channels.name_of(i as usize))),
{
    let n = channels.declared();
    let mut names: Vec<Option<String>> = Vec::with_capacity(n);
    let mut index: usize = 0;
    while index < n
        invariant
            n == channels.count(),
            0 <= index <= n,
            names@.len() == index,
            names_view(names@) == Seq::new(index as nat, |i: int| opt_view(channels.name_of(i as usize))),
        decreases n - index,
    {
        let ghost prev = names@;
        let mut name = String::new();
        match channels.lookup(&mut name, index) {
            Ok(()) => {
                assert(name@ =~= channels.name_of(index).unwrap()@);
                names.push(Some(name));
            },
            Err(_) => names.push(None),
        }
        proof {
            let target = Seq::new(index as nat + 1, |i: int| opt_view(channels.name_of(i as usize)));
            assert forall|i: int| 0 <= i < index + 1 implies names_view(names@)[i] == target[i] by {
                if i < index {
                    assert(names@[i] == prev[i]);
                    assert(names_view(prev)[i] == Seq::new(index as nat, |i: int| opt_view(channels.name_of(i as usize)))[i]);
                }
            }
            assert(names_view(names@) =~= target);
        }
        index = index + 1;
    }
    names
}

struct AudioInputs<'p, P> {
    plugin: &'p P,
}

impl<'p, P: CommonAudioPortMeta> ChannelNames for AudioInputs<'p, P> {
    spec fn count(&self) -> usize {
        self.plugin.audio_inputs()
    }

    spec fn name_of(&self, index: usize) -> Option<String> {
        self.plugin.audio_input_name(index)
    }

    fn declared(&self) -> (r: usize) {
        self.plugin.max_number_of_audio_inputs()
    }

    fn lookup(&self, name: &mut String, index: usize) -> (r: Result<(), PortNameError>) {
        <P as CommonAudioPortMeta>::input_name(self.plugin, name, index)
    }
}

/// The names of the audio inputs, one per declared channel, in order; `None`
/// where the plugin gives no name.
pub fn audio_input_names<P: CommonAudioPortMeta>(plugin: &P) -> (r: Vec<Option<String>>)
    ensures
        names_view(r@) == Seq::new(plugin.audio_inputs() as nat, |i: int| opt_view(plugin.audio_input_name(i as usize))),
{
    let names = collect_names(&AudioInputs { plugin });
    assert(names_view(names@) =~= Seq::new(plugin.audio_inputs() as nat, |i: int| opt_view(plugin.audio_input_name(i as usize))));
    names
}

/// Registers one audio input port per channel that the plugin declares and
/// names, skipping those that the server refuses.
pub fn audio_in_ports<P, H, R>(registrar: &mut R, plugin: &P) -> (r: Vec<Registered<H>>) where
    P: CommonAudioPortMeta,
    R: PortRegistrar<AudioIn, H>,
    ensures
        registration::<_, H, R>(
            *old(registrar),
            *final(registrar),
            Seq::new(plugin.audio_inputs() as nat, |i: int| opt_view(plugin.audio_input_name(i as usize))),
            r@,
        ),
{
    let names = audio_input_names(plugin);
    register_ports(registrar, &names)
}

struct AudioOutputs<'p, P> {
    plugin: &'p P,
}

impl<'p, P: CommonAudioPortMeta> ChannelNames for AudioOutputs<'p, P> {
    spec fn count(&self) -> usize {
        self.plugin.audio_outputs()
    }

    spec fn name_of(&self, index: usize) -> Option<String> {
        self.plugin.audio_output_name(index)
    }

    fn declared(&self) -> (r: usize) {
        self.plugin.max_number_of_audio_outputs()
    }

    fn lookup(&self, name: &mut String, index: usize) -> (r: Result<(), PortNameError>) {
        <P as CommonAudioPortMeta>::output_name(self.plugin, name, index)
    }
}

/// The names of the audio outputs, one per declared channel, in order; `None`
/// where the plugin gives no name.
pub fn audio_output_names<P: CommonAudioPortMeta>(plugin: &P) -> (r: Vec<Option<String>>)
    ensures
        names_view(r@) == Seq::new(plugin.audio_outputs() as nat, |i: int| opt_view(plugin.audio_output_name(i as usize))),
{
    let names = collect_names(&AudioOutputs { plugin });
    assert(names_view(names@) =~= Seq::new(plugin.audio_outputs() as nat, |i: int| opt_view(plugin.audio_output_name(i as usize))));
    names
}

/// Registers one audio output port per channel that the plugin declares and
/// names, skipping those that the server refuses.
pub fn audio_out_ports<P, H, R>(registrar: &mut R, plugin: &P) -> (r: Vec<Registered<H>>) where
    P: CommonAudioPortMeta,
    R: PortRegistrar<AudioOut, H>,
    ensures
        registration::<_, H, R>(
            *old(registrar),
            *final(registrar),
            Seq::new(plugin.audio_outputs() as nat, |i: int| opt_view(plugin.audio_output_name(i as usize))),
            r@,
        ),
{
    let names = audio_output_names(plugin);
    register_ports(registrar, &names)
}

struct MidiInputs<'p, P> {
    plugin: &'p P,
}

impl<'p, P: CommonMidiPortMeta> ChannelNames for MidiInputs<'p, P> {
    spec fn count(&self) -> usize {
        self.plugin.midi_inputs()
    }

    spec fn name_of(&self, index: usize) -> Option<String> {
        self.plugin.midi_input_name(index)
    }

    fn declared(&self) -> (r: usize) {
        self.plugin.max_number_of_midi_inputs()
    }

    fn lookup(&self, name: &mut String, index: usize) -> (r: Result<(), PortNameError>) {
        <P as CommonMidiPortMeta>::input_name(self.plugin, name, index)
    }
}

/// The names of the midi inputs, one per declared channel, in order; `None`
/// where the plugin gives no name.
pub fn midi_input_names<P: CommonMidiPortMeta>(plugin: &P) -> (r: Vec<Option<String>>)
    ensures
        names_view(r@) == Seq::new(plugin.midi_inputs() as nat, |i: int| opt_view(plugin.midi_input_name(i as usize))),
{
    let names = collect_names(&MidiInputs { plugin });
    assert(names_view(names@) =~= Seq::new(plugin.midi_inputs() as nat, |i: int| opt_view(plugin.midi_input_name(i as usize))));
    names
}

/// Registers one midi input port per channel that the plugin declares and
/// names, skipping those that the server refuses.
pub fn midi_in_ports<P, H, R>(registrar: &mut R, plugin: &P) -> (r: Vec<Registered<H>>) where
    P: CommonMidiPortMeta,
    R: PortRegistrar<MidiIn, H>,
    ensures
        registration::<_, H, R>(
            *old(registrar),
            *final(registrar),
            Seq::new(plugin.midi_inputs() as nat, |i: int| opt_view(plugin.midi_input_name(i as usize))),
            r@,
        ),
{
    let names = midi_input_names(plugin);
    register_ports(registrar, &names)
}

struct MidiOutputs<'p, P> {
    plugin: &'p P,
}

impl<'p, P: CommonMidiPortMeta> ChannelNames for MidiOutputs<'p, P> {
    spec fn count(&self) -> usize {
        self.plugin.midi_outputs()
    }

    spec fn name_of(&self, index: usize) -> Option<String> {
        self.plugin.midi_output_name(index)
    }

    fn declared(&self) -> (r: usize) {
        self.plugin.max_number_of_midi_outputs()
    }

    fn lookup(&self, name: &mut String, index: usize) -> (r: Result<(), PortNameError>) {
        <P as CommonMidiPortMeta>::output_name(self.plugin, name, index)
    }
}

/// The names of the midi outputs, one per declared channel, in order; `None`
/// where the plugin gives no name.
pub fn midi_output_names<P: CommonMidiPortMeta>(plugin: &P) -> (r: Vec<Option<String>>)
    ensures
        names_view(r@) == Seq::new(plugin.midi_outputs() as nat, |i: int| opt_view(plugin.midi_output_name(i as usize))),
{
    let names = collect_names(&MidiOutputs { plugin });
    assert(names_view(names@) =~= Seq::new(plugin.midi_outputs() as nat, |i: int| opt_view(plugin.midi_output_name(i as usize))));
    names
}

/// Registers one midi output port per channel that the plugin declares and
/// names, skipping those that the server refuses.
pub fn midi_out_ports<P, H, R>(registrar: &mut R, plugin: &P) -> (r: Vec<Registered<H>>) where
    P: CommonMidiPortMeta,
    R: PortRegistrar<MidiOut, H>,
    ensures
        registration::<_, H, R>(
            *old(registrar),
            *final(registrar),
            Seq::new(plugin.midi_outputs() as nat, |i: int| opt_view(plugin.midi_output_name(i as usize))),
            r@,
        ),
{
    let names = midi_output_names(plugin);
    register_ports(registrar, &names)
}

} // verus!
