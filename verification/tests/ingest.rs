use shadertoy_browser::assemble::SourceTemplate;
use shadertoy_browser::ingest::{
    is_eligible, AbortReason, BuildStatus, Command, EntryJob, Event, IngestConfig, Phase,
};
use shadertoy_browser::layout::failure_memo_path;
use shadertoy_browser::registry::PipelineCache;
use shadertoy_browser::types::{
    RenderPass, RenderPassInput, RenderPassOutput, Sampler, Shader, ShaderInfo,
};
use std::collections::{HashMap, HashSet};

fn template() -> SourceTemplate {
    SourceTemplate {
        header: String::from("// header"),
        image_footer: String::from("// image footer"),
        sound_footer: String::from("// sound footer"),
    }
}

fn info(id: &str) -> ShaderInfo {
    ShaderInfo {
        id: String::from(id),
        date: String::from("0"),
        viewed: 10,
        name: String::from("a shader"),
        username: String::from("someone"),
        description: String::new(),
        likes: 3,
        published: 3,
        flags: 0,
        tags: vec![],
        hasliked: 0,
        use_preview: 0,
    }
}

fn sampler() -> Sampler {
    Sampler {
        filter: String::from("linear"),
        wrap: String::from("clamp"),
        vflip: String::from("true"),
        srgb: String::from("false"),
        internal: String::from("byte"),
    }
}

fn input(channel: u64, ctype: &str, src: &str) -> RenderPassInput {
    RenderPassInput {
        id: channel,
        src: String::from(src),
        ctype: String::from(ctype),
        channel,
        sampler: sampler(),
        published: 1,
    }
}

fn pass(name: &str, pass_type: &str, code: &str, inputs: Vec<RenderPassInput>) -> RenderPass {
    RenderPass {
        inputs,
        outputs: vec![RenderPassOutput { id: 37, channel: 0 }],
        code: String::from(code),
        name: String::from(name),
        description: String::new(),
        pass_type: String::from(pass_type),
    }
}

fn shader(id: &str, passes: Vec<RenderPass>) -> Shader {
    Shader { ver: String::from("0.1"), info: info(id), renderpass: passes }
}

/// An in-memory stand-in for cache, catalog and backend.
struct World {
    files: HashSet<String>,
    definitions: HashMap<String, Shader>,
    catalog: HashMap<String, Shader>,
    assets: HashMap<String, Vec<u8>>,
    failing: HashSet<String>,
    registry: PipelineCache<String>,
    definition_fetches: usize,
    asset_downloads: usize,
    builds: usize,
    written: Vec<String>,
}

impl World {
    fn new() -> World {
        World {
            files: HashSet::new(),
            definitions: HashMap::new(),
            catalog: HashMap::new(),
            assets: HashMap::new(),
            failing: HashSet::new(),
            registry: PipelineCache::new(),
            definition_fetches: 0,
            asset_downloads: 0,
            builds: 0,
            written: vec![],
        }
    }

    fn carry_out(&mut self, job: &EntryJob, command: Command) -> Option<Event> {
        match command {
            Command::Probe { path } => Some(Event::Probed(self.files.contains(&path))),
            Command::FetchDefinition { id } => {
                self.definition_fetches += 1;
                match self.catalog.get(&id) {
                    Some(s) => Some(Event::Definition(s.clone())),
                    None => Some(Event::Failed),
                }
            }
            Command::StoreDefinition { path } => {
                self.files.insert(path.clone());
                self.definitions.insert(path, job.shader().unwrap().clone());
                Some(Event::Done)
            }
            Command::LoadDefinition { path } => match self.definitions.get(&path) {
                Some(s) => Some(Event::Definition(s.clone())),
                None => Some(Event::Failed),
            },
            Command::Write { path, contents: _ } => {
                self.files.insert(path.clone());
                self.written.push(path);
                Some(Event::Done)
            }
            Command::Build { stem: _, source } => {
                self.builds += 1;
                if self.failing.contains(&source) {
                    Some(Event::BuildFailed(String::from("it does not compile")))
                } else {
                    Some(Event::Built(self.registry.register(source)))
                }
            }
            Command::FetchAsset { url } => {
                self.asset_downloads += 1;
                match self.assets.get(&url) {
                    Some(bytes) => Some(Event::Asset(bytes.clone())),
                    None => Some(Event::Failed),
                }
            }
            Command::Stop => None,
        }
    }

    fn ingest<'a>(&mut self, config: &'a IngestConfig, id: &str) -> EntryJob<'a> {
        let (mut job, mut command) = EntryJob::start(String::from(id), config);
        loop {
            match self.carry_out(&job, command) {
                Some(event) => command = job.step(event),
                None => return job,
            }
        }
    }
}

fn image_shader(id: &str) -> Shader {
    shader(id, vec![pass("Image", "image", "void mainImage_(){}", vec![])])
}

#[test]
fn single_image_pass_is_built() {
    let config = IngestConfig::new(template(), true);
    let mut world = World::new();
    world.catalog.insert(String::from("abc123"), image_shader("abc123"));
    let job = world.ingest(&config, "abc123");
    assert_eq!(job.phase(), Phase::Finished);
    assert_eq!(world.asset_downloads, 0);
    assert_eq!(world.builds, 1);
    let built = job.into_built().expect("one built shader");
    assert!(world.registry.is_valid(built.pipeline_handle));
    assert_eq!(built.pipeline_handle, 0);
    assert_eq!(built.info.id, "abc123");
    assert_eq!(
        world.registry.get(built.pipeline_handle).unwrap(),
        "// header\n\nvoid mainImage_(){}\n// image footer"
    );
    assert!(world.files.contains("output/shader/abc123/abc123.json"));
    assert!(world.files.contains("output/shader/abc123/abc123Image.glsl"));
}

#[test]
fn denylisted_shader_is_skipped() {
    let mut config = IngestConfig::new(template(), true);
    config.denylist = vec![String::from("bad999")];
    let mut world = World::new();
    world.catalog.insert(String::from("bad999"), image_shader("bad999"));
    let job = world.ingest(&config, "bad999");
    assert_eq!(job.phase(), Phase::Finished);
    assert_eq!(job.status(), BuildStatus::Denylisted);
    assert_eq!(world.builds, 0);
    assert!(job.into_built().is_none());
    assert_eq!(world.registry.len(), 0);
}

#[test]
fn shipped_denylist() {
    let config = IngestConfig::new(template(), true);
    for id in ["XdsBzj", "XtlSD7", "MlB3Wt", "4ssfzj", "XllSWf", "4td3z4"] {
        assert!(config.is_denylisted(id));
    }
    assert!(!config.is_denylisted("abc123"));
    assert_eq!(config.format_version, 1);
}

#[test]
fn two_passes_are_never_built() {
    let config = IngestConfig::new(template(), true);
    let mut world = World::new();
    let two = shader(
        "two",
        vec![
            pass("Image", "image", "void mainImage_(){}", vec![]),
            pass("Buf A", "buffer", "void mainImage_(){}", vec![]),
        ],
    );
    assert!(!is_eligible(&two, 0));
    assert!(!is_eligible(&two, 1));
    world.catalog.insert(String::from("two"), two);
    let job = world.ingest(&config, "two");
    assert_eq!(job.phase(), Phase::Finished);
    assert_eq!(job.status(), BuildStatus::NotAttempted);
    assert_eq!(world.builds, 0);
    assert_eq!(
        world.written,
        vec!["output/shader/two/twoImage.glsl", "output/shader/two/twoBuf A.glsl"]
    );
}

#[test]
fn eligibility() {
    assert!(is_eligible(&image_shader("a"), 0));
    assert!(!is_eligible(&image_shader("a"), 1));
    let sound = shader("s", vec![pass("Sound", "sound", "", vec![])]);
    assert!(!is_eligible(&sound, 0));
    let with_input =
        shader("i", vec![pass("Image", "image", "", vec![input(0, "texture", "/media/t.png")])]);
    assert!(!is_eligible(&with_input, 0));
}

#[test]
fn inputs_are_downloaded_but_not_built() {
    let config = IngestConfig::new(template(), true);
    let mut world = World::new();
    let s = shader(
        "tex",
        vec![pass(
            "Image",
            "image",
            "void mainImage_(){}",
            vec![
                input(0, "texture", "/media/a.png"),
                input(1, "keyboard", "/presets/keyboard.png"),
                input(2, "cubemap", "/media/c.png"),
            ],
        )],
    );
    world.catalog.insert(String::from("tex"), s);
    world.assets.insert(String::from("https://www.shadertoy.com//media/a.png"), vec![1, 2, 3]);
    world.assets.insert(String::from("https://www.shadertoy.com//media/c.png"), vec![4]);
    let job = world.ingest(&config, "tex");
    assert_eq!(job.phase(), Phase::Finished);
    assert_eq!(world.builds, 0);
    assert_eq!(world.asset_downloads, 2);
    assert!(world.files.contains("output/media/a.png"));
    assert!(world.files.contains("output/media/c.png"));
    assert!(!world.files.contains("output/presets/keyboard.png"));
}

#[test]
fn failed_download_gives_up_the_entry() {
    let config = IngestConfig::new(template(), true);
    let mut world = World::new();
    let s = shader(
        "tex",
        vec![pass("Image", "image", "", vec![input(0, "texture", "/media/a.png")])],
    );
    world.catalog.insert(String::from("tex"), s);
    let job = world.ingest(&config, "tex");
    assert_eq!(job.phase(), Phase::Aborted(AbortReason::Failed));
    assert!(job.into_built().is_none());
}

#[test]
fn unknown_entry_gives_up() {
    let config = IngestConfig::new(template(), true);
    let mut world = World::new();
    let job = world.ingest(&config, "doesnt_exist");
    assert_eq!(job.phase(), Phase::Aborted(AbortReason::Failed));
    assert_eq!(world.definition_fetches, 1);
}

#[test]
fn unknown_content_class_gives_up() {
    let config = IngestConfig::new(template(), true);
    let mut world = World::new();
    let s = shader(
        "odd",
        vec![
            pass("Image", "image", "", vec![]),
            pass("Buf A", "buffer", "", vec![input(0, "texture", "/a"), input(1, "hologram", "/b")]),
        ],
    );
    world.catalog.insert(String::from("odd"), s);
    let job = world.ingest(&config, "odd");
    assert_eq!(
        job.phase(),
        Phase::Aborted(AbortReason::UnknownContentClass { pass: 1, input: 1 })
    );
    assert_eq!(world.written, vec!["output/shader/odd/oddImage.glsl"]);
}

#[test]
fn unexpected_report_gives_up() {
    let config = IngestConfig::new(template(), true);
    let (mut job, _) = EntryJob::start(String::from("abc123"), &config);
    assert!(matches!(job.step(Event::Done), Command::Stop));
    assert_eq!(job.phase(), Phase::Aborted(AbortReason::Unexpected));
    assert!(job.is_over());
    assert!(matches!(job.step(Event::Probed(true)), Command::Stop));
    assert_eq!(job.phase(), Phase::Aborted(AbortReason::Unexpected));
}

#[test]
fn without_backend_nothing_is_built() {
    let config = IngestConfig::new(template(), false);
    let mut world = World::new();
    world.catalog.insert(String::from("abc123"), image_shader("abc123"));
    let job = world.ingest(&config, "abc123");
    assert_eq!(job.phase(), Phase::Finished);
    assert_eq!(job.status(), BuildStatus::NoBackend);
    assert_eq!(world.builds, 0);
}

#[test]
fn failure_is_memoized_until_the_format_changes() {
    let config = IngestConfig::new(template(), true);
    let source = "// header\n\nvoid mainImage_(){}\n// image footer";
    let mut world = World::new();
    world.catalog.insert(String::from("abc123"), image_shader("abc123"));
    world.failing.insert(String::from(source));

    let first = world.ingest(&config, "abc123");
    assert_eq!(first.status(), BuildStatus::Failed);
    assert_eq!(world.builds, 1);
    assert!(world.files.contains(&failure_memo_path(source, 1)));

    let second = world.ingest(&config, "abc123");
    assert_eq!(second.phase(), Phase::Finished);
    assert_eq!(second.status(), BuildStatus::KnownFailure);
    assert_eq!(world.builds, 1);

    let mut bumped = IngestConfig::new(template(), true);
    bumped.format_version = 2;
    let third = world.ingest(&bumped, "abc123");
    assert_eq!(third.status(), BuildStatus::Failed);
    assert_eq!(world.builds, 2);
    assert!(world.files.contains(&failure_memo_path(source, 2)));
}

#[test]
fn second_run_uses_no_network() {
    let config = IngestConfig::new(template(), true);
    let mut world = World::new();
    world.catalog.insert(String::from("abc123"), image_shader("abc123"));
    let tex = shader(
        "tex",
        vec![
            pass("Buf A", "buffer", "", vec![input(0, "texture", "/media/a.png")]),
            pass("Image", "image", "", vec![input(0, "buffer", "/media/previz/buffer00.png")]),
        ],
    );
    world.catalog.insert(String::from("tex"), tex);
    world.assets.insert(String::from("https://www.shadertoy.com//media/a.png"), vec![1]);
    world
        .assets
        .insert(String::from("https://www.shadertoy.com//media/previz/buffer00.png"), vec![2]);

    let ids = ["abc123", "tex"];
    let first: Vec<bool> =
        ids.iter().map(|id| world.ingest(&config, id).into_built().is_some()).collect();
    assert_eq!(first, vec![true, false]);
    assert_eq!(world.definition_fetches, 2);
    assert_eq!(world.asset_downloads, 2);

    let second: Vec<bool> =
        ids.iter().map(|id| world.ingest(&config, id).into_built().is_some()).collect();
    assert_eq!(second, first);
    assert_eq!(world.definition_fetches, 2);
    assert_eq!(world.asset_downloads, 2);
}
