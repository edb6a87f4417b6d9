//! Choices about pipeline elements: which decoder runs where, which audio sink to
//! build on.

use vstd::prelude::*;

use crate::text;
use crate::text::{chars, contains, ends_with, lowercase, starts_with};

verus! {

/// Whether the lowercase name of a decoder factory belongs to a GPU decoder.
pub open spec fn is_hardware(name: Seq<char>) -> bool {
    &&& text::occurs(name, "dec"@)
    &&& {
        ||| text::begins(name, "va"@) && text::finishes(name, "dec"@)
        ||| text::begins(name, "vaapi"@)
        ||| text::begins(name, "nv"@)
        ||| text::occurs(name, "d3d11"@)
        ||| text::occurs(name, "d3d12"@)
        ||| text::occurs(name, "videotoolbox"@)
        ||| text::begins(name, "vtdec"@)
        ||| text::begins(name, "v4l2sl"@)
        ||| text::occurs(name, "msdk"@)
        ||| text::occurs(name, "qsv"@)
        ||| text::begins(name, "amf"@)
        ||| text::occurs(name, "amfdec"@)
    }
}

/// Whether the lowercase name of a decoder factory belongs to a GPU decoder.
pub fn is_hardware_name(name: &str) -> (r: bool)
    ensures
        r == is_hardware(name@),
{
    let v: Vec<char> = chars(name);
    if !contains(&v, "dec") {
        return false;
    }
    // `va*dec` is the VA-API family; `vaapi*` the older one. Guard against
    // matching unrelated names that merely start with "va".
    let va: bool = (starts_with(&v, "va") && ends_with(&v, "dec")) || starts_with(&v, "vaapi");

    va || starts_with(&v, "nv") || contains(&v, "d3d11") || contains(&v, "d3d12") || contains(
        &v,
        "videotoolbox",
    ) || starts_with(&v, "vtdec") || starts_with(&v, "v4l2sl") || contains(&v, "msdk") || contains(
        &v,
        "qsv",
    ) || starts_with(&v, "amf") || contains(&v, "amfdec")
}

/// Whether a decoder factory name belongs to a GPU decoder.
///
/// Matching a fixed list of names gets this wrong for every decoder the list does
/// not mention. Matching the vendor prefixes instead covers every VA-API, NVIDIA,
/// Direct3D, VideoToolbox, V4L2 stateless, QSV and AMF decoder, including ones that do
/// not exist yet.
pub fn is_hardware_decoder(factory: &str) -> (r: bool)
    ensures
        r == is_hardware(text::to_lowercase(factory@)),
        vstd::utf8::is_ascii_chars(factory@) ==> r == is_hardware(
            factory@.map_values(|c: char| text::ascii_lower(c)),
        ),
{
    let name: String = lowercase(factory);
    is_hardware_name(name.as_str())
}

/// Nothing that is not a decoder by name counts as one, whoever made it.
pub proof fn lemma_only_decoders_are_hardware(name: Seq<char>)
    requires
        !text::occurs(name, "dec"@),
    ensures
        !is_hardware(name),
{
}

/// The prefixes that vendors put in front of their decoders.
pub open spec fn vendor_prefixes() -> Seq<Seq<char>> {
    seq![
        "va"@,
        "vaapi"@,
        "nv"@,
        "d3d11"@,
        "d3d12"@,
        "vtdec"@,
        "v4l2sl"@,
        "msdk"@,
        "qsv"@,
        "amf"@,
    ]
}

/// Every decoder of a vendor's family counts as hardware, whatever codec its name holds
/// between the vendor's prefix and `dec`.
pub proof fn lemma_vendor_families_are_hardware(vendor: int, codec: Seq<char>)
    requires
        0 <= vendor < vendor_prefixes().len(),
    ensures
        is_hardware(vendor_prefixes()[vendor] + codec + "dec"@),
{
    let prefix = vendor_prefixes()[vendor];
    let name = prefix + codec + "dec"@;
    reveal_strlit("dec");
    assert(name.subrange(0, prefix.len() as int) =~= prefix);
    assert(name.subrange(name.len() - 3, name.len() as int) =~= "dec"@);
    assert(text::stands_at(name, prefix, 0));
    assert(text::stands_at(name, "dec"@, name.len() - 3));
}

/// One element of a running pipeline: the factory that made it, and the media type
/// that its source pad carries.
#[derive(Debug, Clone, PartialEq, Eq)]
pub struct Element {
    pub factory: Option<String>,
    pub media: Option<String>,
}

impl Element {
    /// Whether this element decodes media whose type starts with `media`.
    pub open spec fn decodes(self, media: Seq<char>) -> bool {
        &&& self.factory is Some
        &&& text::occurs(self.factory->0@, "dec"@)
        &&& !text::occurs(self.factory->0@, "decodebin"@)
        &&& self.media is Some
        &&& text::begins(self.media->0@, media)
    }

    fn decodes_media(&self, media: &str) -> (r: bool)
        ensures
            r == self.decodes(media@),
    {
        match (&self.factory, &self.media) {
            (Some(factory), Some(carried)) => {
                let name: Vec<char> = chars(factory.as_str());
                contains(&name, "dec") && !contains(&name, "decodebin") && starts_with(
                    &chars(carried.as_str()),
                    media,
                )
            },
            _ => false,
        }
    }
}

/// The factory of the first element that decodes media whose type starts with
/// `media`.
pub open spec fn first_decoder(elements: Seq<Element>, media: Seq<char>) -> Option<String>
    decreases elements.len(),
{
    if elements.len() == 0 {
        None
    } else if elements[0].decodes(media) {
        elements[0].factory
    } else {
        first_decoder(elements.drop_first(), media)
    }
}

fn find_decoder(elements: &Vec<Element>, media: &str) -> (r: Option<String>)
    ensures
        r == first_decoder(elements@, media@),
{
    let mut i: usize = 0;
    proof {
        assert(elements@.skip(0) =~= elements@);
    }
    while i < elements.len()
        invariant
            i <= elements@.len(),
            first_decoder(elements@, media@) == first_decoder(elements@.skip(i as int), media@),
        decreases elements@.len() - i,
    {
        proof {
            assert(elements@.skip(i as int)[0] == elements@[i as int]);
            assert(elements@.skip(i as int).drop_first() =~= elements@.skip(i + 1));
        }
        if elements[i].decodes_media(media) {
            return elements[i].factory.clone();
        }
        i += 1;
    }
    None
}

/// The elements actually decoding video and audio, for diagnostics. Identified by
/// what their source pad carries rather than by name, since `avdec_eac3` and
/// `vah264dec` both merely contain "dec".
pub fn decoders(elements: &Vec<Element>) -> (r: (Option<String>, Option<String>))
    ensures
        r.0 == first_decoder(elements@, "video/"@),
        r.1 == first_decoder(elements@, "audio/"@),
{
    (find_decoder(elements, "video/"), find_decoder(elements, "audio/"))
}

/// Whether any element of a pipeline decodes on the GPU.
pub fn uses_hardware_decoder(elements: &Vec<Element>) -> (r: bool)
    ensures
        r == exists|i: int|
            0 <= i < elements@.len() && (#[trigger] elements@[i]).factory is Some && is_hardware(
                text::to_lowercase(elements@[i].factory->0@),
            ),
{
    let mut i: usize = 0;
    while i < elements.len()
        invariant
            i <= elements@.len(),
            forall|k: int|
                0 <= k < i ==> !((#[trigger] elements@[k]).factory is Some && is_hardware(
                    text::to_lowercase(elements@[k].factory->0@),
                )),
        decreases elements@.len() - i,
    {
        if let Some(factory) = &elements[i].factory {
            if is_hardware_decoder(factory.as_str()) {
                proof {
                    assert(elements@[i as int].factory is Some);
                }
                return true;
            }
        }
        i += 1;
    }
    false
}

/// How many audio sinks there are to try.
pub const SINKS: usize = 4;

/// The audio sinks, in the order in which they are tried.
pub open spec fn sink_name(index: int) -> Seq<char> {
    if index == 0 {
        "pulsesink"@
    } else if index == 1 {
        "alsasink"@
    } else if index == 2 {
        "autoaudiosink"@
    } else {
        "pipewiresink"@
    }
}

/// What to do next in looking for an audio sink.
#[derive(Debug, Clone, Copy, PartialEq, Eq)]
pub enum SinkStep {
    /// The sink made last will do.
    Use,
    /// Make this one.
    Try(&'static str),
    /// None provides a clock. Make this one anyway, and say that sync may wander.
    Settle(&'static str),
}

/// The next step in looking for an audio sink, when `tried` have been tried and the
/// last of them either could not be made or was made and has a clock or not.
///
/// The audio sink is chosen for its clock before anything else. A sink without one
/// leaves the pipeline on the system clock while the sound card consumes samples at
/// its own crystal rate, and the two drift apart.
pub fn sink_step(tried: usize, made_with_clock: Option<bool>) -> (r: SinkStep)
    ensures
        made_with_clock == Some(true) <==> r is Use,
        made_with_clock != Some(true) && tried < SINKS ==> {
            &&& r matches SinkStep::Try(name)
            &&& name@ == sink_name(tried as int)
        },
        made_with_clock != Some(true) && tried >= SINKS ==> {
            &&& r matches SinkStep::Settle(name)
            &&& name@ == "autoaudiosink"@
        },
{
    if let Some(true) = made_with_clock {
        return SinkStep::Use;
    }
    match tried {
        0 => SinkStep::Try("pulsesink"),
        1 => SinkStep::Try("alsasink"),
        2 => SinkStep::Try("autoaudiosink"),
        3 => SinkStep::Try("pipewiresink"),
        _ => SinkStep::Settle("autoaudiosink"),
    }
}

} // verus!
