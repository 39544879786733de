//! Intel High Definition Audio at the firmware stage: the encodings and
//! decisions behind finding the controller, talking to its codec and playing
//! a recorded phrase. The port, register and DMA accesses themselves are the
//! firmware's; everything they are computed from is here.

use vstd::prelude::*;

verus! {

/// The PCI configuration-space address (mechanism #1) of a register: the
/// enable bit, the bus, device and function numbers, and the register offset
/// rounded down to a dword.
pub open spec fn spec_pci_address(bus: u8, device: u8, function: u8, offset: u8) -> u32 {
    0x8000_0000u32 | ((bus as u32) << 16u32) | ((device as u32) << 11u32) | ((function as u32) << 8u32)
        | ((offset & 0xfc) as u32)
}

/// The configuration address of a register of `bus:device.function`.
pub fn pci_address(bus: u8, device: u8, function: u8, offset: u8) -> (r: u32)
    ensures
        r == spec_pci_address(bus, device, function, offset),
{
    0x8000_0000u32 | ((bus as u32) << 16u32) | ((device as u32) << 11u32) | ((function as u32) << 8u32)
        | ((offset & 0xfc) as u32)
}

/// For a device below 32 and a function below 8, every field of the address
/// can be read back from its own bits.
pub proof fn lemma_pci_address_fields(bus: u8, device: u8, function: u8, offset: u8)
    requires
        device < 32,
        function < 8,
    ensures
        spec_pci_address(bus, device, function, offset) >> 31u32 == 1,
        (spec_pci_address(bus, device, function, offset) >> 16u32) & 0xff == bus,
        (spec_pci_address(bus, device, function, offset) >> 11u32) & 0x1f == device,
        (spec_pci_address(bus, device, function, offset) >> 8u32) & 0x7 == function,
        spec_pci_address(bus, device, function, offset) & 0xff == offset & 0xfc,
{
    let a = spec_pci_address(bus, device, function, offset);
    assert(a >> 31u32 == 1) by (bit_vector)
        requires a == 0x8000_0000u32 | ((bus as u32) << 16u32) | ((device as u32) << 11u32) | ((function as u32) << 8u32) | ((offset & 0xfc) as u32), device < 32, function < 8;
    assert((a >> 16u32) & 0xff == bus) by (bit_vector)
        requires a == 0x8000_0000u32 | ((bus as u32) << 16u32) | ((device as u32) << 11u32) | ((function as u32) << 8u32) | ((offset & 0xfc) as u32), device < 32, function < 8;
    assert((a >> 11u32) & 0x1f == device) by (bit_vector)
        requires a == 0x8000_0000u32 | ((bus as u32) << 16u32) | ((device as u32) << 11u32) | ((function as u32) << 8u32) | ((offset & 0xfc) as u32), device < 32, function < 8;
    assert((a >> 8u32) & 0x7 == function) by (bit_vector)
        requires a == 0x8000_0000u32 | ((bus as u32) << 16u32) | ((device as u32) << 11u32) | ((function as u32) << 8u32) | ((offset & 0xfc) as u32), device < 32, function < 8;
    assert(a & 0xff == offset & 0xfc) by (bit_vector)
        requires a == 0x8000_0000u32 | ((bus as u32) << 16u32) | ((device as u32) << 11u32) | ((function as u32) << 8u32) | ((offset & 0xfc) as u32), device < 32, function < 8;
}

/// A present PCI function (its vendor ID is not all ones) whose class code is
/// multimedia (0x04), subclass HD Audio (0x03), is an HDA controller.
pub open spec fn spec_is_hda(id: u32, class: u32) -> bool {
    id & 0xffff != 0xffff && (class >> 24u32) & 0xff == 0x04 && (class >> 16u32) & 0xff == 0x03
}

/// Whether the function with this ID dword and class dword is an HDA controller.
pub fn is_hda(id: u32, class: u32) -> (r: bool)
    ensures
        r == spec_is_hda(id, class),
{
    if id & 0xffff == 0xffff {
        return false;
    }
    (class >> 24u32) & 0xff == 0x04 && (class >> 16u32) & 0xff == 0x03
}

/// A function is taken for an HDA controller exactly when it is present (its
/// vendor ID, the low half of the ID dword, is not 0xffff) and the top byte of
/// its class dword, the base class, is multimedia (0x04) and the byte below it,
/// the subclass, is HD Audio (0x03).
pub proof fn lemma_hda_is_multimedia_audio(id: u32, class: u32)
    ensures
        spec_is_hda(id, class) <==> (id % 0x1_0000 != 0xffff && class / 0x100_0000 == 0x04 && (class
            / 0x1_0000) % 0x100 == 0x03),
{
    assert(id & 0xffff == id % 0x1_0000 && (class >> 24u32) & 0xff == class / 0x100_0000 && (class >> 16u32)
        & 0xff == (class / 0x1_0000) % 0x100) by (bit_vector);
}

/// The PCI command register with memory space (bit 1) and bus mastering
/// (bit 2) enabled and everything else kept.
pub fn enable_memory_and_bus_master(command: u32) -> (r: u32)
    ensures
        r == command | 0x6,
{
    command | 0b110
}

/// The 64-bit memory BAR0 from its two dwords (the low four flag bits
/// cleared), or nothing when it is unassigned.
pub open spec fn spec_bar0(low: u32, high: u32) -> Option<u64> {
    let base = ((low & 0xffff_fff0) as u64) | ((high as u64) << 32u64);
    if base != 0 { Some(base) } else { None }
}

/// The controller's register window.
pub fn bar0(low: u32, high: u32) -> (r: Option<u64>)
    ensures
        r == spec_bar0(low, high),
{
    let base = ((low & 0xffff_fff0) as u64) | ((high as u64) << 32u64);
    if base != 0 { Some(base) } else { None }
}

/// Where the PCI scan looks after `bus:device.function`: the next function,
/// then the next device, then the next bus; nothing after the last.
pub open spec fn spec_next_location(bus: u8, device: u8, function: u8) -> Option<(u8, u8, u8)> {
    if function < 7 {
        Some((bus, device, (function + 1) as u8))
    } else if device < 31 {
        Some((bus, (device + 1) as u8, 0u8))
    } else if bus < 255 {
        Some(((bus + 1) as u8, 0u8, 0u8))
    } else {
        None
    }
}

/// The next location of the scan over every bus, device (0-31) and function
/// (0-7), in that nesting.
pub fn next_location(bus: u8, device: u8, function: u8) -> (r: Option<(u8, u8, u8)>)
    requires
        device < 32,
        function < 8,
    ensures
        r == spec_next_location(bus, device, function),
{
    if function < 7 {
        Some((bus, device, function + 1))
    } else if device < 31 {
        Some((bus, device + 1, 0))
    } else if bus < 255 {
        Some((bus + 1, 0, 0))
    } else {
        None
    }
}

/// A codec verb with an 8-bit payload: codec address, node, 12-bit verb and
/// payload byte.
pub open spec fn spec_build_verb(codec: u8, nid: u8, verb: u32, payload: u32) -> u32 {
    ((codec as u32) << 28u32) | ((nid as u32) << 20u32) | ((verb & 0xfff) << 8u32) | (payload & 0xff)
}

/// Encode a verb with an 8-bit payload.
pub fn build_verb(codec: u8, nid: u8, verb: u32, payload: u32) -> (r: u32)
    ensures
        r == spec_build_verb(codec, nid, verb, payload),
{
    ((codec as u32) << 28u32) | ((nid as u32) << 20u32) | ((verb & 0xfff) << 8u32) | (payload & 0xff)
}

/// A codec verb with a 16-bit payload: codec address, node, 4-bit verb and
/// payload.
pub open spec fn spec_build_verb16(codec: u8, nid: u8, verb4: u32, payload: u16) -> u32 {
    ((codec as u32) << 28u32) | ((nid as u32) << 20u32) | ((verb4 & 0xf) << 16u32) | (payload as u32)
}

/// Encode a verb with a 16-bit payload.
pub fn build_verb16(codec: u8, nid: u8, verb4: u32, payload: u16) -> (r: u32)
    ensures
        r == spec_build_verb16(codec, nid, verb4, payload),
{
    ((codec as u32) << 28u32) | ((nid as u32) << 20u32) | ((verb4 & 0xf) << 16u32) | (payload as u32)
}

/// For a codec address below 16, every field of a verb can be read back from
/// its own bits.
pub proof fn lemma_verb_fields(codec: u8, nid: u8, verb: u32, payload: u32)
    requires
        codec < 16,
    ensures
        spec_build_verb(codec, nid, verb, payload) >> 28u32 == codec,
        (spec_build_verb(codec, nid, verb, payload) >> 20u32) & 0xff == nid,
        (spec_build_verb(codec, nid, verb, payload) >> 8u32) & 0xfff == verb & 0xfff,
        spec_build_verb(codec, nid, verb, payload) & 0xff == payload & 0xff,
{
    let v = spec_build_verb(codec, nid, verb, payload);
    assert(v >> 28u32 == codec && (v >> 20u32) & 0xff == nid && (v >> 8u32) & 0xfff == verb & 0xfff && v & 0xff
        == payload & 0xff) by (bit_vector)
        requires v == ((codec as u32) << 28u32) | ((nid as u32) << 20u32) | ((verb & 0xfff) << 8u32) | (payload & 0xff), codec < 16;
}

/// Entries in each of the command and response rings.
pub const RING_ENTRIES: u16 = 256;

/// The ring slot after `index`, wrapping at the ring's end.
pub fn next_ring_slot(index: u16) -> (r: u16)
    ensures
        r == (index as int + 1) % (RING_ENTRIES as int),
{
    ((index as u32 + 1) % (RING_ENTRIES as u32)) as u16
}

/// The codec to talk to: the lowest address whose state-change bit is set.
pub open spec fn is_lowest_set_bit(bits: u16, index: u8) -> bool {
    &&& index < 16
    &&& (bits >> (index as u16)) & 1 == 1
    &&& forall|j: u16| j < index ==> #[trigger] ((bits >> j) & 1) == 0
}

/// The address of the first codec that reported in, from the state-change
/// status bits (which must not all be clear).
pub fn codec_address(statests: u16) -> (r: u8)
    requires
        statests != 0,
    ensures
        is_lowest_set_bit(statests, r),
{
    proof {
        vstd::std_specs::bits::axiom_u16_trailing_zeros(statests);
    }
    statests.trailing_zeros() as u8
}

/// How many input stream descriptors precede the output ones (GCAP bits 8-11).
pub fn input_stream_count(gcap: u16) -> (r: u8)
    ensures
        r == (gcap >> 8u16) & 0xf,
{
    let field = (gcap >> 8u16) & 0xf;
    assert(field < 16) by (bit_vector)
        requires field == (gcap >> 8u16) & 0xf;
    field as u8
}

/// Offset of the first stream descriptor in the register window.
pub const STREAM_BASE: u64 = 0x80;
/// Size of one stream descriptor's registers.
pub const STREAM_STRIDE: u64 = 0x20;

/// The address of the first output stream descriptor: past the input ones.
pub fn output_stream_base(base: u64, input_streams: u8) -> (r: u64)
    requires
        base + STREAM_BASE + input_streams * STREAM_STRIDE <= u64::MAX,
    ensures
        r == base + STREAM_BASE + input_streams * STREAM_STRIDE,
{
    base + STREAM_BASE + (input_streams as u64) * STREAM_STRIDE
}

/// A codec answer to the vendor query means a codec is there unless it is
/// all zeros or all ones.
pub fn codec_answered(vendor: u32) -> (r: bool)
    ensures
        r == (vendor != 0 && vendor != 0xffff_ffff),
{
    vendor != 0 && vendor != 0xffff_ffff
}

/// Size of the playback buffer: room for about four seconds of 24 kHz stereo.
pub const AUDIO_BYTES: usize = 393_216;
/// Bytes per second of the played stream (24000 frames, 2 channels, 2 bytes).
pub const BYTES_PER_SEC: u32 = 96_000;
/// Slack, in milliseconds, allowed past a clip's length for it to finish.
pub const PLAYBACK_SLACK_MS: u32 = 150;
/// Milliseconds between two reads of the stream's position.
pub const PLAYBACK_POLL_MS: u32 = 20;

/// How many frames of a mono clip of `clip_len` bytes are played: one per
/// two-byte sample, as many as the playback buffer holds.
pub open spec fn spec_frames(clip_len: int) -> int {
    if clip_len / 2 <= AUDIO_BYTES / 4 { clip_len / 2 } else { AUDIO_BYTES as int / 4 }
}

/// The little-endian 16-bit sample at position `i` of a clip.
pub open spec fn sample(clip: Seq<u8>, i: int) -> i16 {
    ((clip[2 * i] as u16) | ((clip[2 * i + 1] as u16) << 8u16)) as i16
}

/// The stereo stream played for a mono clip: each sample twice, once per
/// channel, for as many frames as fit the playback buffer.
pub open spec fn spec_stereo_samples(clip: Seq<u8>) -> Seq<i16> {
    Seq::new((2 * spec_frames(clip.len() as int)) as nat, |j: int| sample(clip, j / 2))
}

/// The stereo samples for a mono clip.
pub fn stereo_samples(clip: &[u8]) -> (r: Vec<i16>)
    ensures
        r@ == spec_stereo_samples(clip@),
{
    let frames = if clip.len() / 2 <= AUDIO_BYTES / 4 { clip.len() / 2 } else { AUDIO_BYTES / 4 };
    let mut samples: Vec<i16> = Vec::new();
    let mut i: usize = 0;
    while i < frames
        invariant
            frames == spec_frames(clip@.len() as int),
            frames <= clip@.len() / 2,
            i <= frames,
            samples@ =~= spec_stereo_samples(clip@).take(2 * i as int),
        decreases frames - i,
    {
        let value = ((clip[2 * i] as u16) | ((clip[2 * i + 1] as u16) << 8u16)) as i16;
        samples.push(value);
        samples.push(value);
        proof {
            assert((2 * i) as int / 2 == i);
            assert((2 * i + 1) as int / 2 == i);
        }
        i = i + 1;
    }
    samples
}

/// The byte length of the stereo stream for a clip of `clip_len` bytes.
pub fn stereo_byte_len(clip_len: usize) -> (r: u32)
    ensures
        r == 4 * spec_frames(clip_len as int),
{
    let frames = if clip_len / 2 <= AUDIO_BYTES / 4 { clip_len / 2 } else { AUDIO_BYTES / 4 };
    (frames * 4) as u32
}

/// The buffer descriptor list entry for one buffer: address (low, high), byte
/// length, and the interrupt-on-completion flag.
pub fn buffer_descriptor(address: u64, length: u32) -> (r: [u32; 4])
    ensures
        r@ == seq![(address & 0xffff_ffff) as u32, (address >> 32u64) as u32, length, 1u32],
{
    let low = address as u32;
    assert(low == (address & 0xffff_ffff) as u32) by (bit_vector)
        requires low == address as u32;
    let r = [low, (address >> 32u64) as u32, length, 1];
    assert(r@ =~= seq![(address & 0xffff_ffff) as u32, (address >> 32u64) as u32, length, 1u32]);
    r
}

/// Watches a clip play: it is given the clip's length plus some slack to
/// finish, and counts as spoken only if the stream position ever moved.
#[derive(Clone, Copy, Debug, PartialEq, Eq, Structural)]
pub struct Playback {
    pub stream_bytes: u32,
    pub limit_ms: u32,
    pub waited_ms: u32,
    pub furthest: u32,
    pub finished: bool,
}

impl Playback {
    pub open spec fn wf(self) -> bool {
        self.limit_ms <= 10_000 && self.waited_ms <= self.limit_ms + PLAYBACK_POLL_MS
    }

    /// Start watching a stream of `stream_bytes` (at most a full buffer).
    pub fn start(stream_bytes: u32) -> (r: Playback)
        requires
            stream_bytes <= AUDIO_BYTES,
        ensures
            r.wf(),
            r == (Playback {
                stream_bytes,
                limit_ms: (stream_bytes / (BYTES_PER_SEC / 1000) + PLAYBACK_SLACK_MS) as u32,
                waited_ms: 0,
                furthest: 0,
                finished: false,
            }),
    {
        Playback {
            stream_bytes,
            limit_ms: stream_bytes / (BYTES_PER_SEC / 1000) + PLAYBACK_SLACK_MS,
            waited_ms: 0,
            furthest: 0,
            finished: false,
        }
    }

    /// Whether to wait another poll interval and read the position again.
    pub fn waiting(&self) -> (r: bool)
        ensures
            r == (!self.finished && self.waited_ms < self.limit_ms),
    {
        !self.finished && self.waited_ms < self.limit_ms
    }

    /// One poll interval passed and the stream was at `position`.
    pub fn observe(&mut self, position: u32)
        requires
            old(self).wf(),
            old(self).waited_ms < old(self).limit_ms,
        ensures
            final(self).wf(),
            *final(self) == (Playback {
                waited_ms: (old(self).waited_ms + PLAYBACK_POLL_MS) as u32,
                furthest: if position > old(self).furthest { position } else { old(self).furthest },
                finished: position >= old(self).stream_bytes,
                ..*old(self)
            }),
    {
        self.waited_ms = self.waited_ms + PLAYBACK_POLL_MS;
        if position > self.furthest {
            self.furthest = position;
        }
        self.finished = position >= self.stream_bytes;
    }

    /// The clip counts as spoken when the stream position moved at all.
    pub fn spoken(&self) -> (r: bool)
        ensures
            r == (self.furthest > 0),
    {
        self.furthest > 0
    }
}

/// Verb: get a parameter.
pub const VERB_GET_PARAMETER: u32 = 0xf00;
/// Verb: set the power state (payload 0 = fully on).
pub const VERB_SET_POWER_STATE: u32 = 0x705;
/// Verb: set the converter's stream and channel.
pub const VERB_SET_STREAM_CHANNEL: u32 = 0x706;
/// Verb: set the pin widget control.
pub const VERB_SET_PIN_CONTROL: u32 = 0x707;
/// Verb: set the external amplifier power-down control.
pub const VERB_SET_EAPD: u32 = 0x70c;
/// Four-bit verb: set the converter format.
pub const VERB4_SET_FORMAT: u32 = 0x2;
/// Four-bit verb: set the amplifier gain and mute.
pub const VERB4_SET_AMP: u32 = 0x3;
/// Parameter: vendor and device ID.
pub const PARAM_VENDOR_ID: u32 = 0x00;
/// Parameter: first subordinate node and their count.
pub const PARAM_SUBNODE_COUNT: u32 = 0x04;
/// Parameter: function group type.
pub const PARAM_FUNCTION_GROUP_TYPE: u32 = 0x05;
/// Parameter: audio widget capabilities.
pub const PARAM_WIDGET_CAP: u32 = 0x09;
/// Parameter: pin capabilities.
pub const PARAM_PIN_CAP: u32 = 0x0c;
/// Widget type of an audio output converter.
pub const WIDGET_AUDIO_OUTPUT: u32 = 0x0;
/// Widget type of a pin complex.
pub const WIDGET_PIN_COMPLEX: u32 = 0x4;
/// The stream tag the speech stream is played on.
pub const STREAM_TAG: u8 = 1;
/// 24 kHz (48 kHz base, divided by two), 16-bit, two channels.
pub const STREAM_FORMAT: u16 = 0x0111;
/// Output amplifier unmuted at a moderate gain, both channels.
pub const AMP_OUT_UNMUTE: u16 = 0xb02a;
/// Pin control: output enabled.
pub const PIN_CONTROL_OUT_ENABLE: u32 = 0x40;
/// External amplifier enabled.
pub const EAPD_ENABLE: u32 = 0x2;

/// The commands that configure the output path, in order: power the
/// converter, give it the stream, unmute it, power the pin, enable its output
/// and external amplifier, and unmute it.
pub open spec fn spec_output_path_commands(codec: u8, dac: u8, pin: u8) -> Seq<u32> {
    seq![
        spec_build_verb(codec, dac, VERB_SET_POWER_STATE, 0),
        spec_build_verb(codec, dac, VERB_SET_STREAM_CHANNEL, (STREAM_TAG as u32) << 4u32),
        spec_build_verb16(codec, dac, VERB4_SET_AMP, AMP_OUT_UNMUTE),
        spec_build_verb(codec, pin, VERB_SET_POWER_STATE, 0),
        spec_build_verb(codec, pin, VERB_SET_PIN_CONTROL, PIN_CONTROL_OUT_ENABLE),
        spec_build_verb(codec, pin, VERB_SET_EAPD, EAPD_ENABLE),
        spec_build_verb16(codec, pin, VERB4_SET_AMP, AMP_OUT_UNMUTE),
    ]
}

/// The commands that configure the output path through `dac` and `pin`.
pub fn output_path_commands(codec: u8, dac: u8, pin: u8) -> (r: Vec<u32>)
    ensures
        r@ == spec_output_path_commands(codec, dac, pin),
{
    vec![
        build_verb(codec, dac, VERB_SET_POWER_STATE, 0),
        build_verb(codec, dac, VERB_SET_STREAM_CHANNEL, (STREAM_TAG as u32) << 4u32),
        build_verb16(codec, dac, VERB4_SET_AMP, AMP_OUT_UNMUTE),
        build_verb(codec, pin, VERB_SET_POWER_STATE, 0),
        build_verb(codec, pin, VERB_SET_PIN_CONTROL, PIN_CONTROL_OUT_ENABLE),
        build_verb(codec, pin, VERB_SET_EAPD, EAPD_ENABLE),
        build_verb16(codec, pin, VERB4_SET_AMP, AMP_OUT_UNMUTE),
    ]
}

/// The node `offset` places after `first`, with node numbers wrapping after 255.
pub open spec fn node_after(first: u8, offset: u8) -> u8 {
    if first + offset > 255 { (first + offset - 256) as u8 } else { (first + offset) as u8 }
}

/// A question (or order) for the codec during the search for an output path.
#[derive(Clone, Copy, Debug, PartialEq, Eq, Structural)]
pub enum CodecRequest {
    /// Read a parameter of a node.
    Parameter { nid: u8, parameter: u32 },
    /// Power a function group fully on.
    PowerOn(u8),
}

/// Where the search for an output path stands.
#[derive(Clone, Copy, Debug, PartialEq, Eq, Structural)]
pub enum SearchStage {
    /// Asking the root node for its function groups.
    Root,
    /// Asking group `g` for its type.
    GroupType(u8),
    /// Powering audio group `g` on.
    PowerOn(u8),
    /// Asking audio group `g` for its widgets.
    Widgets(u8),
    /// Asking widget `i` of group `g` for its type.
    WidgetType(u8, u8),
    /// Asking pin widget `i` of group `g` whether it can drive output.
    PinCap(u8, u8),
    /// Found: the converter and the pin to play through.
    Found(u8, u8),
    /// No audio function group has both.
    NoPath,
}

/// The search for an output path: the first audio function group that has an
/// output converter and an output-capable pin, taking the first of each.
#[derive(Clone, Copy, Debug, PartialEq, Eq, Structural)]
pub struct OutputSearch {
    pub stage: SearchStage,
    pub first_group: u8,
    pub group_count: u8,
    pub first_widget: u8,
    pub widget_count: u8,
    pub dac: Option<u8>,
    pub pin: Option<u8>,
}

impl OutputSearch {
    /// A search that starts at the root node.
    pub fn new() -> (r: OutputSearch)
        ensures
            r == (OutputSearch { stage: SearchStage::Root, first_group: 0, group_count: 0, first_widget: 0, widget_count: 0, dac: None, pin: None }),
    {
        OutputSearch { stage: SearchStage::Root, first_group: 0, group_count: 0, first_widget: 0, widget_count: 0, dac: None, pin: None }
    }

    /// The request the search needs answered next; none once it has ended.
    pub open spec fn spec_request(self) -> Option<CodecRequest> {
        match self.stage {
            SearchStage::Root => Some(CodecRequest::Parameter { nid: 0, parameter: PARAM_SUBNODE_COUNT }),
            SearchStage::GroupType(g) => Some(CodecRequest::Parameter { nid: node_after(self.first_group, g), parameter: PARAM_FUNCTION_GROUP_TYPE }),
            SearchStage::PowerOn(g) => Some(CodecRequest::PowerOn(node_after(self.first_group, g))),
            SearchStage::Widgets(g) => Some(CodecRequest::Parameter { nid: node_after(self.first_group, g), parameter: PARAM_SUBNODE_COUNT }),
            SearchStage::WidgetType(_, i) => Some(CodecRequest::Parameter { nid: node_after(self.first_widget, i), parameter: PARAM_WIDGET_CAP }),
            SearchStage::PinCap(_, i) => Some(CodecRequest::Parameter { nid: node_after(self.first_widget, i), parameter: PARAM_PIN_CAP }),
            SearchStage::Found(_, _) | SearchStage::NoPath => None,
        }
    }

    /// The stage for group `g` onward: its type question, or the end.
    pub open spec fn group_from(self, g: int) -> SearchStage {
        if g < self.group_count { SearchStage::GroupType(g as u8) } else { SearchStage::NoPath }
    }

    /// The stage for widget `i` onward of group `g`: its type question, or,
    /// past the last widget, the result when both parts were found and the
    /// next group otherwise.
    pub open spec fn widget_from(self, g: u8, i: int) -> SearchStage {
        if i < self.widget_count {
            SearchStage::WidgetType(g, i as u8)
        } else {
            match (self.dac, self.pin) {
                (Some(d), Some(p)) => SearchStage::Found(d, p),
                _ => self.group_from(g + 1),
            }
        }
    }

    /// The search after the codec answered `response`.
    pub open spec fn spec_answer(self, response: u32) -> OutputSearch {
        match self.stage {
            SearchStage::Root => {
                let s = OutputSearch {
                    first_group: ((response >> 16u32) & 0xff) as u8,
                    group_count: (response & 0xff) as u8,
                    ..self
                };
                OutputSearch { stage: s.group_from(0), ..s }
            },
            SearchStage::GroupType(g) => if response & 0xff != 0x01 {
                OutputSearch { stage: self.group_from(g + 1), ..self }
            } else {
                OutputSearch { stage: SearchStage::PowerOn(g), ..self }
            },
            SearchStage::PowerOn(g) => OutputSearch { stage: SearchStage::Widgets(g), ..self },
            SearchStage::Widgets(g) => {
                let s = OutputSearch {
                    first_widget: ((response >> 16u32) & 0xff) as u8,
                    widget_count: (response & 0xff) as u8,
                    dac: None,
                    pin: None,
                    ..self
                };
                OutputSearch { stage: s.widget_from(g, 0), ..s }
            },
            SearchStage::WidgetType(g, i) => {
                let widget = node_after(self.first_widget, i);
                let kind = (response >> 20u32) & 0xf;
                if kind == WIDGET_AUDIO_OUTPUT && self.dac is None {
                    let s = OutputSearch { dac: Some(widget), ..self };
                    OutputSearch { stage: s.widget_from(g, i + 1), ..s }
                } else if kind == WIDGET_PIN_COMPLEX && self.pin is None {
                    OutputSearch { stage: SearchStage::PinCap(g, i), ..self }
                } else {
                    OutputSearch { stage: self.widget_from(g, i + 1), ..self }
                }
            },
            SearchStage::PinCap(g, i) => {
                let s = if response & 0x10 != 0 {
                    OutputSearch { pin: Some(node_after(self.first_widget, i)), ..self }
                } else {
                    self
                };
                OutputSearch { stage: s.widget_from(g, i + 1), ..s }
            },
            SearchStage::Found(_, _) | SearchStage::NoPath => self,
        }
    }

    pub open spec fn wf(self) -> bool {
        match self.stage {
            SearchStage::GroupType(g) | SearchStage::PowerOn(g) | SearchStage::Widgets(g) => g < self.group_count,
            SearchStage::WidgetType(g, i) | SearchStage::PinCap(g, i) => g < self.group_count && i < self.widget_count,
            _ => true,
        }
    }

    fn group_stage(&self, g: u8) -> (r: SearchStage)
        requires
            g <= self.group_count,
        ensures
            r == self.group_from(g as int),
    {
        if g < self.group_count { SearchStage::GroupType(g) } else { SearchStage::NoPath }
    }

    fn widget_stage(&self, g: u8, i: u8) -> (r: SearchStage)
        requires
            g < self.group_count,
            i <= self.widget_count,
        ensures
            r == self.widget_from(g, i as int),
    {
        if i < self.widget_count {
            SearchStage::WidgetType(g, i)
        } else {
            match (self.dac, self.pin) {
                (Some(d), Some(p)) => SearchStage::Found(d, p),
                _ => self.group_stage(g + 1),
            }
        }
    }

    /// The request the search needs answered next.
    pub fn request(&self) -> (r: Option<CodecRequest>)
        ensures
            r == self.spec_request(),
    {
        match self.stage {
            SearchStage::Root => Some(CodecRequest::Parameter { nid: 0, parameter: PARAM_SUBNODE_COUNT }),
            SearchStage::GroupType(g) => Some(CodecRequest::Parameter { nid: self.first_group.wrapping_add(g), parameter: PARAM_FUNCTION_GROUP_TYPE }),
            SearchStage::PowerOn(g) => Some(CodecRequest::PowerOn(self.first_group.wrapping_add(g))),
            SearchStage::Widgets(g) => Some(CodecRequest::Parameter { nid: self.first_group.wrapping_add(g), parameter: PARAM_SUBNODE_COUNT }),
            SearchStage::WidgetType(_, i) => Some(CodecRequest::Parameter { nid: self.first_widget.wrapping_add(i), parameter: PARAM_WIDGET_CAP }),
            SearchStage::PinCap(_, i) => Some(CodecRequest::Parameter { nid: self.first_widget.wrapping_add(i), parameter: PARAM_PIN_CAP }),
            SearchStage::Found(_, _) | SearchStage::NoPath => None,
        }
    }

    /// Take the codec's answer to the last request and move on.
    pub fn answer(&mut self, response: u32)
        requires
            old(self).wf(),
        ensures
            *final(self) == old(self).spec_answer(response),
            final(self).wf(),
    {
        match self.stage {
            SearchStage::Root => {
                self.first_group = ((response >> 16u32) & 0xff) as u8;
                self.group_count = (response & 0xff) as u8;
                self.stage = self.group_stage(0);
            },
            SearchStage::GroupType(g) => {
                if response & 0xff != 0x01 {
                    self.stage = self.group_stage(g + 1);
                } else {
                    self.stage = SearchStage::PowerOn(g);
                }
            },
            SearchStage::PowerOn(g) => {
                self.stage = SearchStage::Widgets(g);
            },
            SearchStage::Widgets(g) => {
                self.first_widget = ((response >> 16u32) & 0xff) as u8;
                self.widget_count = (response & 0xff) as u8;
                self.dac = None;
                self.pin = None;
                self.stage = self.widget_stage(g, 0);
            },
            SearchStage::WidgetType(g, i) => {
                let widget = self.first_widget.wrapping_add(i);
                let kind = (response >> 20u32) & 0xf;
                if kind == WIDGET_AUDIO_OUTPUT && self.dac.is_none() {
                    self.dac = Some(widget);
                    self.stage = self.widget_stage(g, i + 1);
                } else if kind == WIDGET_PIN_COMPLEX && self.pin.is_none() {
                    self.stage = SearchStage::PinCap(g, i);
                } else {
                    self.stage = self.widget_stage(g, i + 1);
                }
            },
            SearchStage::PinCap(g, i) => {
                if response & 0x10 != 0 {
                    self.pin = Some(self.first_widget.wrapping_add(i));
                }
                self.stage = self.widget_stage(g, i + 1);
            },
            SearchStage::Found(_, _) | SearchStage::NoPath => {},
        }
    }
}

/// A brought-up HDA controller with a configured output path: where its
/// registers are, which codec answers, where the output streams start, the
/// converter and pin to play through, and the last response slot consumed.
#[derive(Clone, Copy, Debug, PartialEq, Eq, Structural)]
pub struct Speaker {
    pub base: u64,
    pub codec: u8,
    pub input_streams: u8,
    pub dac: u8,
    pub pin: u8,
    pub rirb_read: u16,
}

impl Speaker {
    /// The speaker for the controller at `base`, talking to the first codec
    /// that reported in, before its output path is known.
    pub fn new(base: u64, statests: u16, gcap: u16) -> (r: Speaker)
        requires
            statests != 0,
        ensures
            r.base == base,
            is_lowest_set_bit(statests, r.codec),
            r.input_streams == (gcap >> 8u16) & 0xf,
            r.dac == 0 && r.pin == 0 && r.rirb_read == 0,
    {
        Speaker {
            base,
            codec: codec_address(statests),
            input_streams: input_stream_count(gcap),
            dac: 0,
            pin: 0,
            rirb_read: 0,
        }
    }

    /// A verb with an 8-bit payload for node `nid` of this codec.
    pub fn verb(&self, nid: u8, verb: u32, payload: u32) -> (r: u32)
        ensures
            r == spec_build_verb(self.codec, nid, verb, payload),
    {
        build_verb(self.codec, nid, verb, payload)
    }

    /// A verb with a 16-bit payload for node `nid` of this codec.
    pub fn verb16(&self, nid: u8, verb4: u32, payload: u16) -> (r: u32)
        ensures
            r == spec_build_verb16(self.codec, nid, verb4, payload),
    {
        build_verb16(self.codec, nid, verb4, payload)
    }

    /// Whether the response ring's write pointer shows an answer not yet read.
    pub fn response_waiting(&self, rirb_write: u16) -> (r: bool)
        ensures
            r == ((rirb_write & 0xff) != self.rirb_read),
    {
        (rirb_write & (RING_ENTRIES - 1)) != self.rirb_read
    }

    /// Consume the next response slot and return it.
    pub fn take_response_slot(&mut self) -> (r: u16)
        ensures
            r == (old(self).rirb_read as int + 1) % 256,
            *final(self) == (Speaker { rirb_read: r, ..*old(self) }),
    {
        self.rirb_read = next_ring_slot(self.rirb_read);
        self.rirb_read
    }

    /// Remember the output path found on the codec.
    pub fn use_output_path(&mut self, dac: u8, pin: u8)
        ensures
            *final(self) == (Speaker { dac, pin, ..*old(self) }),
    {
        self.dac = dac;
        self.pin = pin;
    }

    /// The first output stream descriptor of this controller.
    pub fn output_stream_base(&self) -> (r: u64)
        requires
            self.base + STREAM_BASE + self.input_streams * STREAM_STRIDE <= u64::MAX,
        ensures
            r == self.base + STREAM_BASE + self.input_streams * STREAM_STRIDE,
    {
        output_stream_base(self.base, self.input_streams)
    }
}

/// Steps one function group can take: its type, powering it, its widgets,
/// and at most two questions for each of at most 255 widgets.
pub open spec fn group_steps() -> int {
    515int
}

/// How many more answers the search can need at most.
pub open spec fn remaining_steps(s: OutputSearch) -> int {
    match s.stage {
        SearchStage::Root => 256 * group_steps() + 1,
        SearchStage::GroupType(g) => (s.group_count - g) * group_steps(),
        SearchStage::PowerOn(g) => (s.group_count - g) * group_steps() - 1,
        SearchStage::Widgets(g) => (s.group_count - g) * group_steps() - 2,
        SearchStage::WidgetType(g, i) => (s.group_count - g - 1) * group_steps() + 2 * (s.widget_count - i) + 1,
        SearchStage::PinCap(g, i) => (s.group_count - g - 1) * group_steps() + 2 * (s.widget_count - i),
        SearchStage::Found(_, _) | SearchStage::NoPath => 0,
    }
}

/// Where a search ends when every request is answered by `codec`.
pub open spec fn search_outcome(s: OutputSearch, codec: spec_fn(CodecRequest) -> u32) -> SearchStage
    decreases remaining_steps(s),
    when s.wf()
{
    match s.spec_request() {
        None => s.stage,
        Some(request) => {
            proof {
                lemma_answer_makes_progress(s, codec(request));
            }
            search_outcome(s.spec_answer(codec(request)), codec)
        },
    }
}

/// Each answer leaves a well-formed search with fewer steps to go.
pub proof fn lemma_answer_makes_progress(s: OutputSearch, response: u32)
    requires
        s.wf(),
        s.spec_request() is Some,
    ensures
        s.spec_answer(response).wf(),
        0 <= remaining_steps(s.spec_answer(response)) < remaining_steps(s),
{
    let t = s.spec_answer(response);
    assert(((response >> 16u32) & 0xff) as u8 <= 255 && (response & 0xff) as u8 <= 255);
    match s.stage {
        SearchStage::Root => {
            assert(t.group_count <= 255);
            assert(remaining_steps(t) <= 255 * group_steps());
        },
        SearchStage::GroupType(g) => {},
        SearchStage::PowerOn(g) => {},
        SearchStage::Widgets(g) => {
            assert(t.widget_count <= 255);
        },
        SearchStage::WidgetType(g, i) => {},
        SearchStage::PinCap(g, i) => {},
        _ => {},
    }
}

/// The first output converter and output-capable pin among widgets `i`
/// onward, starting from what was already found.
pub open spec fn scan_widgets(
    codec: spec_fn(CodecRequest) -> u32,
    first: u8,
    count: u8,
    i: int,
    dac: Option<u8>,
    pin: Option<u8>,
) -> (Option<u8>, Option<u8>)
    decreases count - i,
{
    if i < 0 || i >= count {
        (dac, pin)
    } else {
        let widget = node_after(first, i as u8);
        let kind = (codec(CodecRequest::Parameter { nid: widget, parameter: PARAM_WIDGET_CAP }) >> 20u32) & 0xf;
        if kind == WIDGET_AUDIO_OUTPUT && dac is None {
            scan_widgets(codec, first, count, i + 1, Some(widget), pin)
        } else if kind == WIDGET_PIN_COMPLEX && pin is None {
            if codec(CodecRequest::Parameter { nid: widget, parameter: PARAM_PIN_CAP }) & 0x10 != 0 {
                scan_widgets(codec, first, count, i + 1, dac, Some(widget))
            } else {
                scan_widgets(codec, first, count, i + 1, dac, pin)
            }
        } else {
            scan_widgets(codec, first, count, i + 1, dac, pin)
        }
    }
}

/// The output path of the first audio function group, from group `g`
/// onward, that has both an output converter and an output-capable pin.
pub open spec fn scan_groups(codec: spec_fn(CodecRequest) -> u32, first: u8, count: u8, g: int) -> Option<(u8, u8)>
    decreases count - g,
{
    if g < 0 || g >= count {
        None
    } else {
        let nid = node_after(first, g as u8);
        if codec(CodecRequest::Parameter { nid, parameter: PARAM_FUNCTION_GROUP_TYPE }) & 0xff != 0x01 {
            scan_groups(codec, first, count, g + 1)
        } else {
            let widgets = codec(CodecRequest::Parameter { nid, parameter: PARAM_SUBNODE_COUNT });
            match scan_widgets(codec, ((widgets >> 16u32) & 0xff) as u8, (widgets & 0xff) as u8, 0, None, None) {
                (Some(d), Some(p)) => Some((d, p)),
                _ => scan_groups(codec, first, count, g + 1),
            }
        }
    }
}

/// The output path a codec offers: among the function groups the root node
/// lists, the first audio group with an output converter and an
/// output-capable pin, with the first of each in it.
pub open spec fn spec_find_output(codec: spec_fn(CodecRequest) -> u32) -> Option<(u8, u8)> {
    let root = codec(CodecRequest::Parameter { nid: 0, parameter: PARAM_SUBNODE_COUNT });
    scan_groups(codec, ((root >> 16u32) & 0xff) as u8, (root & 0xff) as u8, 0)
}

/// The stage a search ends in for a given path (or none).
pub open spec fn final_stage(path: Option<(u8, u8)>) -> SearchStage {
    match path {
        Some((d, p)) => SearchStage::Found(d, p),
        None => SearchStage::NoPath,
    }
}

proof fn lemma_widgets_outcome(s: OutputSearch, codec: spec_fn(CodecRequest) -> u32, g: u8, i: u8)
    requires
        s.wf(),
        s.stage == SearchStage::WidgetType(g, i),
    ensures
        search_outcome(s, codec) == match scan_widgets(codec, s.first_widget, s.widget_count, i as int, s.dac, s.pin) {
            (Some(d), Some(p)) => SearchStage::Found(d, p),
            _ => final_stage(scan_groups(codec, s.first_group, s.group_count, g + 1)),
        },
    decreases remaining_steps(s), 0int,
{
    let request = s.spec_request()->0;
    let t = s.spec_answer(codec(request));
    lemma_answer_makes_progress(s, codec(request));
    let widget = node_after(s.first_widget, i);
    let kind = (codec(CodecRequest::Parameter { nid: widget, parameter: PARAM_WIDGET_CAP }) >> 20u32) & 0xf;
    if kind == WIDGET_PIN_COMPLEX && s.pin is None && !(kind == WIDGET_AUDIO_OUTPUT && s.dac is None) {
        // The pin's capability is asked next.
        assert(t.stage == SearchStage::PinCap(g, i));
        let u = t.spec_answer(codec(t.spec_request()->0));
        lemma_answer_makes_progress(t, codec(t.spec_request()->0));
        assert(search_outcome(s, codec) == search_outcome(t, codec));
        assert(search_outcome(t, codec) == search_outcome(u, codec));
        lemma_after_widget(u, codec, g, (i + 1) as int);
    } else {
        assert(search_outcome(s, codec) == search_outcome(t, codec));
        lemma_after_widget(t, codec, g, (i + 1) as int);
    }
}

/// Past widget `next - 1` of group `g`: the search goes on with the next
/// widget, or settles the group.
proof fn lemma_after_widget(s: OutputSearch, codec: spec_fn(CodecRequest) -> u32, g: u8, next: int)
    requires
        s.wf(),
        g < s.group_count,
        1 <= next <= s.widget_count,
        s.stage == s.widget_from(g, next),
    ensures
        search_outcome(s, codec) == match scan_widgets(codec, s.first_widget, s.widget_count, next, s.dac, s.pin) {
            (Some(d), Some(p)) => SearchStage::Found(d, p),
            _ => final_stage(scan_groups(codec, s.first_group, s.group_count, g + 1)),
        },
    decreases remaining_steps(s), 1int,
{
    if next < s.widget_count {
        lemma_widgets_outcome(s, codec, g, next as u8);
    } else {
        match (s.dac, s.pin) {
            (Some(d), Some(p)) => {},
            _ => lemma_groups_outcome(s, codec, g as int + 1),
        }
    }
}

proof fn lemma_groups_outcome(s: OutputSearch, codec: spec_fn(CodecRequest) -> u32, g: int)
    requires
        s.wf(),
        0 <= g <= s.group_count,
        s.stage == s.group_from(g),
    ensures
        search_outcome(s, codec) == final_stage(scan_groups(codec, s.first_group, s.group_count, g)),
    decreases remaining_steps(s), 0int,
{
    if g < s.group_count {
        let request = s.spec_request()->0;
        let t = s.spec_answer(codec(request));
        lemma_answer_makes_progress(s, codec(request));
        let nid = node_after(s.first_group, g as u8);
        assert(search_outcome(s, codec) == search_outcome(t, codec));
        if codec(CodecRequest::Parameter { nid, parameter: PARAM_FUNCTION_GROUP_TYPE }) & 0xff != 0x01 {
            lemma_groups_outcome(t, codec, g + 1);
        } else {
            // Powered on, then the widget count.
            let u = t.spec_answer(codec(t.spec_request()->0));
            lemma_answer_makes_progress(t, codec(t.spec_request()->0));
            let v = u.spec_answer(codec(u.spec_request()->0));
            lemma_answer_makes_progress(u, codec(u.spec_request()->0));
            assert(search_outcome(t, codec) == search_outcome(u, codec));
            assert(search_outcome(u, codec) == search_outcome(v, codec));
            if v.widget_count > 0 {
                lemma_widgets_outcome(v, codec, g as u8, 0);
            } else {
                match (v.dac, v.pin) {
                    (Some(d), Some(p)) => {},
                    _ => lemma_groups_outcome(v, codec, g + 1),
                }
            }
        }
    }
}

/// Answered by a codec, the search ends having found exactly that codec's
/// output path: the first audio function group with an output converter and
/// an output-capable pin, and the first of each in it; or no path at all.
pub proof fn lemma_search_finds_the_output_path(codec: spec_fn(CodecRequest) -> u32)
    ensures
        search_outcome(
            OutputSearch { stage: SearchStage::Root, first_group: 0, group_count: 0, first_widget: 0, widget_count: 0, dac: None, pin: None },
            codec,
        ) == final_stage(spec_find_output(codec)),
{
    let s = OutputSearch { stage: SearchStage::Root, first_group: 0, group_count: 0, first_widget: 0, widget_count: 0, dac: None, pin: None };
    let request = s.spec_request()->0;
    let t = s.spec_answer(codec(request));
    lemma_answer_makes_progress(s, codec(request));
    assert(search_outcome(s, codec) == search_outcome(t, codec));
    lemma_groups_outcome(t, codec, 0);
}

} // verus!
