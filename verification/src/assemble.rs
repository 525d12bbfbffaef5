//! Assembly of a render pass into one compilable source unit: the engine's
//! header, a sampler declaration for each input, the pass's own code, and
//! the footer that holds the entry point of its stage.

use vstd::prelude::*;
use vstd::string::*;
use crate::text::{decimal, push_decimal, str_eq};
use crate::types::{RenderPass, RenderPassInput};

verus! {

/// What kind of content an input channel delivers.
#[derive(Debug, PartialEq, Eq, Structural, Copy, Clone)]
pub enum ContentClass {
    Texture2D,
    Volume,
    Cubemap,
    Buffer,
    Video,
    Webcam,
    Keyboard,
    Music,
    MusicStream,
    Mic,
}

impl ContentClass {
    /// The class that the catalog spells `s`, if it is one.
    pub open spec fn named(s: Seq<char>) -> Option<ContentClass> {
        if s == "texture"@ {
            Some(ContentClass::Texture2D)
        } else if s == "volume"@ {
            Some(ContentClass::Volume)
        } else if s == "cubemap"@ {
            Some(ContentClass::Cubemap)
        } else if s == "buffer"@ {
            Some(ContentClass::Buffer)
        } else if s == "video"@ {
            Some(ContentClass::Video)
        } else if s == "webcam"@ {
            Some(ContentClass::Webcam)
        } else if s == "keyboard"@ {
            Some(ContentClass::Keyboard)
        } else if s == "music"@ {
            Some(ContentClass::Music)
        } else if s == "musicstream"@ {
            Some(ContentClass::MusicStream)
        } else if s == "mic"@ {
            Some(ContentClass::Mic)
        } else {
            None
        }
    }

    /// The sampler type under which a channel of this class is declared:
    /// volumes and cubemaps have their own, every other class is sampled as
    /// a flat image.
    pub open spec fn sampler_type(self) -> Seq<char> {
        match self {
            ContentClass::Volume => "sampler3D"@,
            ContentClass::Cubemap => "samplerCube"@,
            _ => "sampler2D"@,
        }
    }

    /// Whether a channel of this class is backed by an asset that has to be
    /// present in the cache.
    pub open spec fn has_asset(self) -> bool {
        self == ContentClass::Texture2D || self == ContentClass::Volume || self
            == ContentClass::Cubemap || self == ContentClass::Buffer
    }

    /// Reads a content class from the catalog's spelling.
    pub fn from_name(s: &str) -> (class: Option<ContentClass>)
        ensures
            class == ContentClass::named(s@),
    {
        if str_eq(s, "texture") {
            Some(ContentClass::Texture2D)
        } else if str_eq(s, "volume") {
            Some(ContentClass::Volume)
        } else if str_eq(s, "cubemap") {
            Some(ContentClass::Cubemap)
        } else if str_eq(s, "buffer") {
            Some(ContentClass::Buffer)
        } else if str_eq(s, "video") {
            Some(ContentClass::Video)
        } else if str_eq(s, "webcam") {
            Some(ContentClass::Webcam)
        } else if str_eq(s, "keyboard") {
            Some(ContentClass::Keyboard)
        } else if str_eq(s, "music") {
            Some(ContentClass::Music)
        } else if str_eq(s, "musicstream") {
            Some(ContentClass::MusicStream)
        } else if str_eq(s, "mic") {
            Some(ContentClass::Mic)
        } else {
            None
        }
    }

    /// The name of the sampler type for this class.
    pub fn sampler_type_str(&self) -> (name: &'static str)
        ensures
            name@ == self.sampler_type(),
    {
        match self {
            ContentClass::Volume => "sampler3D",
            ContentClass::Cubemap => "samplerCube",
            _ => "sampler2D",
        }
    }

    /// Whether inputs of this class are downloaded.
    pub fn needs_asset(&self) -> (needed: bool)
        ensures
            needed == self.has_asset(),
    {
        match self {
            ContentClass::Texture2D => true,
            ContentClass::Volume => true,
            ContentClass::Cubemap => true,
            ContentClass::Buffer => true,
            _ => false,
        }
    }
}

/// The declaration of the sampler for one channel.
pub open spec fn sampler_declaration(class: ContentClass, channel: u64) -> Seq<char> {
    "uniform "@ + class.sampler_type() + " iChannel"@ + decimal(channel as nat) + ";\n"@
}

/// Whether every one of `inputs` has a content class that is known.
pub open spec fn inputs_known(inputs: Seq<RenderPassInput>) -> bool {
    forall|i: int|
        0 <= i < inputs.len() ==> ContentClass::named(#[trigger] inputs[i].ctype@) is Some
}

/// The first of `inputs` whose content class is not known, if there is one.
pub open spec fn first_unknown(inputs: Seq<RenderPassInput>) -> Option<int>
    decreases inputs.len(),
{
    if inputs.len() == 0 {
        None
    } else {
        match first_unknown(inputs.drop_last()) {
            Some(i) => Some(i),
            None => if ContentClass::named(inputs.last().ctype@) is None {
                Some(inputs.len() - 1)
            } else {
                None
            },
        }
    }
}

/// The sampler declarations for `inputs`, one line per input, in the order
/// of the inputs. Only channels that have an input are declared.
pub open spec fn sampler_declarations(inputs: Seq<RenderPassInput>) -> Seq<char>
    decreases inputs.len(),
{
    if inputs.len() == 0 {
        Seq::<char>::empty()
    } else {
        let last = inputs.last();
        sampler_declarations(inputs.drop_last()) + sampler_declaration(
            ContentClass::named(last.ctype@).unwrap(),
            last.channel,
        )
    }
}

/// The footer that closes a pass of type `pass_type`: sound passes have
/// their own entry point, every other pass is closed as an image pass.
pub open spec fn footer_for(template: SourceTemplate, pass_type: Seq<char>) -> Seq<char> {
    if pass_type == "sound"@ {
        template.sound_footer@
    } else {
        template.image_footer@
    }
}

/// The complete source of `pass`: header, sampler declarations, the pass's
/// code and its footer, each part on lines of its own.
pub open spec fn assembled_source(template: SourceTemplate, pass: RenderPass) -> Seq<char> {
    template.header@ + "\n"@ + sampler_declarations(pass.inputs@) + "\n"@ + pass.code@ + "\n"@
        + footer_for(template, pass.pass_type@)
}

/// The fixed parts that the engine puts around every pass.
#[derive(Debug, Clone)]
pub struct SourceTemplate {
    /// Declarations of the uniforms and resources that the engine supplies.
    pub header: String,
    /// The entry point of an image pass.
    pub image_footer: String,
    /// The entry point of a sound pass.
    pub sound_footer: String,
}

/// An input whose content class is not one the assembler knows.
#[derive(Debug, PartialEq, Eq, Structural, Copy, Clone)]
pub struct UnknownContentClass {
    /// Position of the input among the inputs of its pass.
    pub input: usize,
}

pub proof fn lemma_first_unknown(inputs: Seq<RenderPassInput>)
    ensures
        first_unknown(inputs) is None <==> inputs_known(inputs),
        first_unknown(inputs) matches Some(i) ==> {
            &&& 0 <= i < inputs.len()
            &&& ContentClass::named(inputs[i].ctype@) is None
            &&& inputs_known(inputs.take(i))
        },
    decreases inputs.len(),
{
    if inputs.len() > 0 {
        let front = inputs.drop_last();
        lemma_first_unknown(front);
        match first_unknown(front) {
            Some(i) => {
                assert(inputs[i] == front[i]);
                assert(inputs.take(i) =~= front.take(i));
            },
            None => {
                assert forall|i: int| 0 <= i < inputs.len() - 1 implies ContentClass::named(
                    #[trigger] inputs[i].ctype@,
                ) is Some by {
                    assert(inputs[i] == front[i]);
                }
                if ContentClass::named(inputs.last().ctype@) is None {
                    assert(inputs.take(inputs.len() - 1) =~= front);
                }
            },
        }
    }
}

/// Writes the sampler declarations for `inputs`, or reports the first input
/// whose content class is unknown.
pub fn declare_samplers(inputs: &Vec<RenderPassInput>) -> (r: Result<String, UnknownContentClass>)
    ensures
        match r {
            Ok(text) => inputs_known(inputs@) && text@ == sampler_declarations(inputs@),
            Err(e) => first_unknown(inputs@) == Some(e.input as int),
        },
{
    let mut text = String::new();
    let mut i: usize = 0;
    while i < inputs.len()
        invariant
            i <= inputs.len(),
            first_unknown(inputs@.take(i as int)) is None,
            text@ == sampler_declarations(inputs@.take(i as int)),
        decreases inputs.len() - i,
    {
        let input = &inputs[i];
        proof {
            let next = inputs@.take(i + 1);
            assert(next.drop_last() =~= inputs@.take(i as int));
            assert(next.last() == inputs@[i as int]);
        }
        match ContentClass::from_name(input.ctype.as_str()) {
            Some(class) => {
                text.append("uniform ");
                text.append(class.sampler_type_str());
                text.append(" iChannel");
                push_decimal(&mut text, input.channel);
                text.append(";\n");
                proof {
                    assert(text@ =~= sampler_declarations(inputs@.take(i + 1)));
                }
            },
            None => {
                proof {
                    lemma_first_unknown_extends(inputs@, i + 1);
                }
                return Err(UnknownContentClass { input: i });
            },
        }
        i += 1;
    }
    proof {
        assert(inputs@.take(i as int) =~= inputs@);
        lemma_first_unknown(inputs@);
    }
    Ok(text)
}

/// An unknown input found among the first `n` inputs is the first unknown
/// input of the whole sequence.
proof fn lemma_first_unknown_extends(inputs: Seq<RenderPassInput>, n: int)
    requires
        0 <= n <= inputs.len(),
        first_unknown(inputs.take(n)) is Some,
    ensures
        first_unknown(inputs) == first_unknown(inputs.take(n)),
    decreases inputs.len() - n,
{
    if n < inputs.len() {
        let next = inputs.take(n + 1);
        assert(next.drop_last() =~= inputs.take(n));
        lemma_first_unknown_extends(inputs, n + 1);
    } else {
        assert(inputs.take(n) =~= inputs);
    }
}

/// Assembles the complete source of `pass`, or reports the first input
/// whose content class is unknown.
pub fn assemble(template: &SourceTemplate, pass: &RenderPass) -> (r: Result<
    String,
    UnknownContentClass,
>)
    ensures
        match r {
            Ok(source) => inputs_known(pass.inputs@) && source@ == assembled_source(
                *template,
                *pass,
            ),
            Err(e) => first_unknown(pass.inputs@) == Some(e.input as int),
        },
{
    let samplers = match declare_samplers(&pass.inputs) {
        Ok(text) => text,
        Err(e) => {
            return Err(e);
        },
    };
    let mut source = String::new();
    source.append(template.header.as_str());
    source.append("\n");
    source.append(samplers.as_str());
    source.append("\n");
    source.append(pass.code.as_str());
    source.append("\n");
    if str_eq(pass.pass_type.as_str(), "sound") {
        source.append(template.sound_footer.as_str());
    } else {
        source.append(template.image_footer.as_str());
    }
    proof {
        assert(source@ =~= assembled_source(*template, *pass));
    }
    Ok(source)
}

} // verus!
