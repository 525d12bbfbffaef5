use shadertoy_browser::assemble::{
    assemble, declare_samplers, ContentClass, SourceTemplate, UnknownContentClass,
};
use shadertoy_browser::types::{RenderPass, RenderPassInput, Sampler};

fn input(channel: u64, ctype: &str) -> RenderPassInput {
    RenderPassInput {
        id: 1,
        src: String::from("/media/x.png"),
        ctype: String::from(ctype),
        channel,
        sampler: Sampler {
            filter: String::new(),
            wrap: String::new(),
            vflip: String::new(),
            srgb: String::new(),
            internal: String::new(),
        },
        published: 1,
    }
}

fn pass(pass_type: &str, code: &str, inputs: Vec<RenderPassInput>) -> RenderPass {
    RenderPass {
        inputs,
        outputs: vec![],
        code: String::from(code),
        name: String::from("Image"),
        description: String::new(),
        pass_type: String::from(pass_type),
    }
}

fn template() -> SourceTemplate {
    SourceTemplate {
        header: String::from("HEADER"),
        image_footer: String::from("IMAGE"),
        sound_footer: String::from("SOUND"),
    }
}

#[test]
fn texture_and_cubemap_declarations() {
    let inputs = vec![input(0, "texture"), input(2, "cubemap")];
    assert_eq!(
        declare_samplers(&inputs).unwrap(),
        "uniform sampler2D iChannel0;\nuniform samplerCube iChannel2;\n"
    );
}

#[test]
fn no_inputs_no_declarations() {
    assert_eq!(declare_samplers(&vec![]).unwrap(), "");
}

#[test]
fn sampler_types_by_class() {
    assert_eq!(ContentClass::from_name("texture"), Some(ContentClass::Texture2D));
    assert_eq!(ContentClass::from_name("volume"), Some(ContentClass::Volume));
    assert_eq!(ContentClass::from_name("musicstream"), Some(ContentClass::MusicStream));
    assert_eq!(ContentClass::from_name("Texture"), None);
    assert_eq!(ContentClass::Volume.sampler_type_str(), "sampler3D");
    assert_eq!(ContentClass::Cubemap.sampler_type_str(), "samplerCube");
    for name in ["texture", "buffer", "video", "webcam", "keyboard", "music", "musicstream", "mic"] {
        assert_eq!(ContentClass::from_name(name).unwrap().sampler_type_str(), "sampler2D");
    }
}

#[test]
fn only_texture_classes_have_assets() {
    for name in ["texture", "volume", "cubemap", "buffer"] {
        assert!(ContentClass::from_name(name).unwrap().needs_asset());
    }
    for name in ["video", "webcam", "keyboard", "music", "musicstream", "mic"] {
        assert!(!ContentClass::from_name(name).unwrap().needs_asset());
    }
}

#[test]
fn channel_numbers_are_decimal() {
    let inputs = vec![input(12, "volume")];
    assert_eq!(declare_samplers(&inputs).unwrap(), "uniform sampler3D iChannel12;\n");
}

#[test]
fn unknown_class_is_reported() {
    let inputs = vec![input(0, "texture"), input(1, "hologram"), input(2, "other")];
    assert_eq!(declare_samplers(&inputs), Err(UnknownContentClass { input: 1 }));
}

#[test]
fn image_pass_is_assembled() {
    let p = pass("image", "void mainImage_(){}", vec![input(1, "texture")]);
    assert_eq!(
        assemble(&template(), &p).unwrap(),
        "HEADER\nuniform sampler2D iChannel1;\n\nvoid mainImage_(){}\nIMAGE"
    );
}

#[test]
fn sound_pass_gets_the_sound_footer() {
    let p = pass("sound", "vec2 mainSound(float t){}", vec![]);
    assert_eq!(assemble(&template(), &p).unwrap(), "HEADER\n\nvec2 mainSound(float t){}\nSOUND");
    let b = pass("buffer", "x", vec![]);
    assert_eq!(assemble(&template(), &b).unwrap(), "HEADER\n\nx\nIMAGE");
}
