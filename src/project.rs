//! Resolution of a requested mode into a complete project configuration.
//!
//! The dialogs and the file system are the caller's: it picks the folder,
//! copies the demo artifacts, reads and decodes the descriptor, and hands the
//! outcomes to the functions here, which decide the configuration.
use crate::number::{Decimal, is_number, is_positive, lemma_digits_are_number};
use crate::turbine::Turbine;
use vstd::prelude::*;

verus! {

/// File name of a project descriptor inside a project folder.
pub const DESCRIPTOR_FILE: &'static str = "project.wssproj.json";

/// Artifacts of the bundled demo, copied together.
pub const DEMO_DEM: &'static str = "demo_dem.asc";
pub const DEMO_TURBINES: &'static str = "demo_turbines.csv";
pub const DEMO_DESCRIPTOR: &'static str = "demo_project.wssproj.json";

/// Folder of the bundled demo, relative to the application's working directory.
pub const DEMO_SOURCE: &'static str = "../demo";

/// Defaults of a new project.
pub const DEFAULT_EPSG: &'static str = "EPSG:32632";
pub const DEFAULT_CELLSIZE_M: &'static str = "10";
pub const DEFAULT_BUFFER_M: &'static str = "2000";
pub const DEFAULT_OUTPUT: &'static str = "{\"format\":\"both\"}";
pub const DEFAULT_TURBINE_ID: &'static str = "T1";
pub const DEFAULT_TURBINE_X: &'static str = "500100";
pub const DEFAULT_TURBINE_Y: &'static str = "5000100";
pub const DEFAULT_HUB_HEIGHT_M: &'static str = "120";
pub const DEFAULT_ROTOR_DIAMETER_M: &'static str = "140";

/// The full working set of one project.
pub struct ProjectConfig {
    /// Folder backing the project; always the folder actually in use.
    pub project_path: String,
    pub epsg: String,
    pub cellsize_m: Decimal,
    pub buffer_m: Decimal,
    pub terrain_aware: bool,
    /// Elevation raster; may be empty.
    pub dem_path: String,
    /// In display and processing order.
    pub turbines: Vec<Turbine>,
    /// The engine's output options, as JSON text.
    pub output: String,
}

/// Requested way of obtaining a project.
#[derive(Debug, PartialEq, Eq, Structural, Clone, Copy)]
pub enum Mode {
    New,
    Open,
    Demo,
}

pub open spec fn mode_spec(s: Seq<char>) -> Mode {
    if s == "demo"@ {
        Mode::Demo
    } else if s == "open"@ {
        Mode::Open
    } else {
        Mode::New
    }
}

/// `"demo"` and `"open"` name their modes; any other request creates a new
/// project.
pub fn parse_mode(mode: &str) -> (r: Mode)
    ensures
        r == mode_spec(mode@),
{
    let m = mode.to_owned();
    if m == "demo".to_owned() {
        Mode::Demo
    } else if m == "open".to_owned() {
        Mode::Open
    } else {
        Mode::New
    }
}

/// Why a project could not be resolved.
#[derive(Debug)]
pub enum ResolveError {
    /// The folder picker was cancelled.
    NoFolderSelected,
    /// The descriptor could not be decoded; the decoder's message.
    Descriptor(String),
    /// Copying or reading an artifact failed; the system's message.
    Filesystem(String),
    /// The descriptor holds an invalid value for this setting.
    InvalidSetting(String),
}

impl ResolveError {
    pub fn message(&self) -> (r: String)
        ensures
            match self {
                ResolveError::NoFolderSelected => r@ == "no folder selected"@,
                ResolveError::Descriptor(m) => r@ == m@,
                ResolveError::Filesystem(m) => r@ == m@,
                ResolveError::InvalidSetting(f) => r@ == "invalid project setting `"@ + f@ + "`"@,
            },
    {
        match self {
            ResolveError::NoFolderSelected => "no folder selected".to_owned(),
            ResolveError::Descriptor(m) => m.clone(),
            ResolveError::Filesystem(m) => m.clone(),
            ResolveError::InvalidSetting(f) => {
                let mut s = "invalid project setting `".to_owned();
                s.append(f.as_str());
                s.append("`");
                s
            },
        }
    }
}

/// `name` inside the folder `base`.
pub open spec fn join_spec(base: Seq<char>, name: Seq<char>) -> Seq<char> {
    if base.len() == 0 {
        name
    } else if base.last() == '/' || base.last() == '\\' {
        base + name
    } else {
        base + seq!['/'] + name
    }
}

/// Path of `name` inside the folder `base`. A separator that ends `base`
/// (`/` or a backslash) is kept; otherwise `/` is inserted, which every supported
/// platform reads as a separator.
pub fn join_path(base: &str, name: &str) -> (r: String)
    ensures
        r@ == join_spec(base@, name@),
{
    let n = base.unicode_len();
    if n == 0 {
        name.to_owned()
    } else {
        let mut r = base.to_owned();
        let last = base.get_char(n - 1);
        if last != '/' && last != '\\' {
            r.append("/");
            proof {
                reveal_strlit("/");
            }
        }
        r.append(name);
        r
    }
}

/// Where the descriptor of the project in `folder` is.
pub fn descriptor_path(folder: &str) -> (r: String)
    ensures
        r@ == join_spec(folder@, DESCRIPTOR_FILE@),
{
    join_path(folder, DESCRIPTOR_FILE)
}

/// A copy of one file.
pub struct CopyStep {
    pub from: String,
    pub to: String,
}

/// The demo artifacts, in the order they are copied.
pub open spec fn demo_artifact(i: int) -> Seq<char> {
    if i == 0 {
        DEMO_DEM@
    } else if i == 1 {
        DEMO_TURBINES@
    } else {
        DEMO_DESCRIPTOR@
    }
}

/// The copies that refresh the demo in `base` from the bundle in `source`:
/// each artifact, overwriting what is there.
pub fn demo_copy_plan(source: &str, base: &str) -> (r: Vec<CopyStep>)
    ensures
        r@.len() == 3,
        forall|i: int|
            0 <= i < 3 ==> (#[trigger] r@[i]).from@ == join_spec(source@, demo_artifact(i))
                && r@[i].to@ == join_spec(base@, demo_artifact(i)),
{
    let mut r: Vec<CopyStep> = Vec::new();
    r.push(CopyStep { from: join_path(source, DEMO_DEM), to: join_path(base, DEMO_DEM) });
    r.push(CopyStep { from: join_path(source, DEMO_TURBINES), to: join_path(base, DEMO_TURBINES) });
    r.push(CopyStep { from: join_path(source, DEMO_DESCRIPTOR), to: join_path(base, DEMO_DESCRIPTOR) });
    r
}

/// `t` is the placeholder turbine of a new project.
pub open spec fn is_default_turbine(t: Turbine) -> bool {
    &&& t.id@ == DEFAULT_TURBINE_ID@
    &&& t.x.spec_text() == DEFAULT_TURBINE_X@
    &&& t.y.spec_text() == DEFAULT_TURBINE_Y@
    &&& t.hub_height_m.spec_text() == DEFAULT_HUB_HEIGHT_M@
    &&& t.rotor_diameter_m.spec_text() == DEFAULT_ROTOR_DIAMETER_M@
    &&& t.wf()
}

/// `c` is the default configuration of a new project in `folder`.
pub open spec fn is_default_project(c: ProjectConfig, folder: Seq<char>) -> bool {
    &&& c.project_path@ == folder
    &&& c.epsg@ == DEFAULT_EPSG@
    &&& c.cellsize_m.spec_text() == DEFAULT_CELLSIZE_M@
    &&& c.buffer_m.spec_text() == DEFAULT_BUFFER_M@
    &&& c.cellsize_m.wf() && c.buffer_m.wf()
    &&& !c.terrain_aware
    &&& c.dem_path@.len() == 0
    &&& c.turbines@.len() == 1
    &&& is_default_turbine(c.turbines@[0])
    &&& c.output@ == DEFAULT_OUTPUT@
}

proof fn lemma_literal_number(s: &str)
    requires
        s@.len() > 0,
        forall|i: int| 0 <= i < s@.len() ==> '0' <= #[trigger] s@[i] && s@[i] <= '9',
    ensures
        is_number(s@),
{
    lemma_digits_are_number(s@);
}

/// The configuration of a new project in `folder`, built in memory.
pub fn default_project(folder: &str) -> (r: ProjectConfig)
    ensures
        is_default_project(r, folder@),
{
    proof {
        reveal_strlit("10");
        reveal_strlit("2000");
        reveal_strlit("500100");
        reveal_strlit("5000100");
        reveal_strlit("120");
        reveal_strlit("140");
        lemma_literal_number(DEFAULT_CELLSIZE_M);
        lemma_literal_number(DEFAULT_BUFFER_M);
        lemma_literal_number(DEFAULT_TURBINE_X);
        lemma_literal_number(DEFAULT_TURBINE_Y);
        lemma_literal_number(DEFAULT_HUB_HEIGHT_M);
        lemma_literal_number(DEFAULT_ROTOR_DIAMETER_M);
        reveal_strlit("T1");
        assert('1' <= DEFAULT_HUB_HEIGHT_M@[0] && DEFAULT_HUB_HEIGHT_M@[0] <= '9');
        assert('1' <= DEFAULT_ROTOR_DIAMETER_M@[0] && DEFAULT_ROTOR_DIAMETER_M@[0] <= '9');
    }
    let t = Turbine {
        id: DEFAULT_TURBINE_ID.to_owned(),
        x: Decimal::from_valid(DEFAULT_TURBINE_X),
        y: Decimal::from_valid(DEFAULT_TURBINE_Y),
        hub_height_m: Decimal::from_valid(DEFAULT_HUB_HEIGHT_M),
        rotor_diameter_m: Decimal::from_valid(DEFAULT_ROTOR_DIAMETER_M),
    };
    let mut turbines: Vec<Turbine> = Vec::new();
    turbines.push(t);
    ProjectConfig {
        project_path: folder.to_owned(),
        epsg: DEFAULT_EPSG.to_owned(),
        cellsize_m: Decimal::from_valid(DEFAULT_CELLSIZE_M),
        buffer_m: Decimal::from_valid(DEFAULT_BUFFER_M),
        terrain_aware: false,
        dem_path: String::new(),
        turbines,
        output: DEFAULT_OUTPUT.to_owned(),
    }
}

/// Cell size and buffer are positive numbers and every turbine is valid.
pub open spec fn config_ok(c: ProjectConfig) -> bool {
    &&& c.cellsize_m.wf() && is_positive(c.cellsize_m.spec_text())
    &&& c.buffer_m.wf() && is_positive(c.buffer_m.spec_text())
    &&& forall|i: int| 0 <= i < c.turbines@.len() ==> (#[trigger] c.turbines@[i]).wf()
}

/// The first setting, in the order cellsize_m, buffer_m, turbines, that `c`
/// does not hold validly.
pub open spec fn first_bad_setting(c: ProjectConfig) -> Seq<char> {
    if !(c.cellsize_m.wf() && is_positive(c.cellsize_m.spec_text())) {
        "cellsize_m"@
    } else if !(c.buffer_m.wf() && is_positive(c.buffer_m.spec_text())) {
        "buffer_m"@
    } else {
        "turbines"@
    }
}

/// Checks the settings of a decoded descriptor.
pub fn check_config(c: &ProjectConfig) -> (r: Result<(), ResolveError>)
    ensures
        r is Ok <==> config_ok(*c),
        r matches Err(e) ==> e matches ResolveError::InvalidSetting(f) && f@ == first_bad_setting(*c),
{
    if !(c.cellsize_m.is_valid() && c.cellsize_m.is_positive()) {
        return Err(ResolveError::InvalidSetting("cellsize_m".to_owned()));
    }
    if !(c.buffer_m.is_valid() && c.buffer_m.is_positive()) {
        return Err(ResolveError::InvalidSetting("buffer_m".to_owned()));
    }
    let mut i: usize = 0;
    while i < c.turbines.len()
        invariant
            i <= c.turbines@.len(),
            c.cellsize_m.wf() && is_positive(c.cellsize_m.spec_text()),
            c.buffer_m.wf() && is_positive(c.buffer_m.spec_text()),
            forall|j: int| 0 <= j < i ==> (#[trigger] c.turbines@[j]).wf(),
        decreases c.turbines@.len() - i,
    {
        if !c.turbines[i].is_valid() {
            return Err(ResolveError::InvalidSetting("turbines".to_owned()));
        }
        i = i + 1;
    }
    Ok(())
}

/// `c` is `cfg` with its project folder set to `path`.
pub open spec fn with_path(cfg: ProjectConfig, c: ProjectConfig, path: Seq<char>) -> bool {
    &&& c.project_path@ == path
    &&& c.epsg == cfg.epsg
    &&& c.cellsize_m == cfg.cellsize_m
    &&& c.buffer_m == cfg.buffer_m
    &&& c.terrain_aware == cfg.terrain_aware
    &&& c.dem_path == cfg.dem_path
    &&& c.turbines == cfg.turbines
    &&& c.output == cfg.output
}

/// Outcome of a new project, given the folder the picker returned.
pub open spec fn new_post(picked: Option<String>, r: Result<ProjectConfig, ResolveError>) -> bool {
    match picked {
        None => r matches Err(ResolveError::NoFolderSelected),
        Some(f) => r matches Ok(c) && is_default_project(c, f@),
    }
}

/// Outcome of opening a project, given the folder the picker returned and,
/// when that folder holds a descriptor, the outcome of decoding it. A decoded
/// descriptor with invalid settings is refused.
pub open spec fn open_post(
    picked: Option<String>,
    descriptor: Option<Result<ProjectConfig, String>>,
    r: Result<ProjectConfig, ResolveError>,
) -> bool {
    match picked {
        None => r matches Err(ResolveError::NoFolderSelected),
        Some(f) => match descriptor {
            None => r matches Ok(c) && is_default_project(c, f@),
            Some(Ok(cfg)) => if config_ok(cfg) {
                r matches Ok(c) && with_path(cfg, c, f@)
            } else {
                r matches Err(ResolveError::InvalidSetting(n)) && n@ == first_bad_setting(cfg)
            },
            Some(Err(m)) => r matches Err(ResolveError::Descriptor(e)) && e@ == m@,
        },
    }
}

/// Outcome of the demo, given the outcome of decoding its copied descriptor
/// and the folder it was copied to.
pub open spec fn demo_post(loaded: Result<ProjectConfig, String>, base: Seq<char>, r: Result<ProjectConfig, ResolveError>) -> bool {
    match loaded {
        Ok(cfg) => if !config_ok(cfg) {
            r matches Err(ResolveError::InvalidSetting(n)) && n@ == first_bad_setting(cfg)
        } else {
            r matches Ok(c) && c.project_path@ == base && c.dem_path@ == join_spec(base, DEMO_DEM@)
            && c.epsg == cfg.epsg && c.cellsize_m == cfg.cellsize_m && c.buffer_m == cfg.buffer_m
            && c.terrain_aware == cfg.terrain_aware && c.turbines == cfg.turbines && c.output == cfg.output
        },
        Err(m) => r matches Err(ResolveError::Descriptor(e)) && e@ == m@,
    }
}

/// A new project in the picked folder; a cancelled pick is a failure.
pub fn resolve_new(picked: Option<String>) -> (r: Result<ProjectConfig, ResolveError>)
    ensures
        new_post(picked, r),
{
    match picked {
        None => Err(ResolveError::NoFolderSelected),
        Some(f) => Ok(default_project(f.as_str())),
    }
}

/// Opens the project in the picked folder: its descriptor, with the folder as
/// project path, or the defaults of a new project when there is none.
pub fn resolve_open(picked: Option<String>, descriptor: Option<Result<ProjectConfig, String>>) -> (r: Result<ProjectConfig, ResolveError>)
    ensures
        open_post(picked, descriptor, r),
{
    match picked {
        None => Err(ResolveError::NoFolderSelected),
        Some(f) => match descriptor {
            None => Ok(default_project(f.as_str())),
            Some(Ok(cfg)) => {
                check_config(&cfg)?;
                let mut c = cfg;
                c.project_path = f;
                Ok(c)
            },
            Some(Err(m)) => Err(ResolveError::Descriptor(m)),
        },
    }
}

/// The demo project copied to `base`: its descriptor, with paths pointing
/// into `base` whatever the descriptor held.
pub fn resolve_demo(loaded: Result<ProjectConfig, String>, base: &str) -> (r: Result<ProjectConfig, ResolveError>)
    ensures
        demo_post(loaded, base@, r),
{
    match loaded {
        Ok(cfg) => {
            check_config(&cfg)?;
            let mut c = cfg;
            c.project_path = base.to_owned();
            c.dem_path = join_path(base, DEMO_DEM);
            Ok(c)
        },
        Err(m) => Err(ResolveError::Descriptor(m)),
    }
}

/// The two turbines hold the same values.
pub open spec fn same_turbine(a: Turbine, b: Turbine) -> bool {
    &&& a.id@ == b.id@
    &&& a.x.spec_text() == b.x.spec_text()
    &&& a.y.spec_text() == b.y.spec_text()
    &&& a.hub_height_m.spec_text() == b.hub_height_m.spec_text()
    &&& a.rotor_diameter_m.spec_text() == b.rotor_diameter_m.spec_text()
}

/// The two configurations hold the same values.
pub open spec fn same_project(a: ProjectConfig, b: ProjectConfig) -> bool {
    &&& a.project_path@ == b.project_path@
    &&& a.epsg@ == b.epsg@
    &&& a.cellsize_m.spec_text() == b.cellsize_m.spec_text()
    &&& a.buffer_m.spec_text() == b.buffer_m.spec_text()
    &&& a.terrain_aware == b.terrain_aware
    &&& a.dem_path@ == b.dem_path@
    &&& a.turbines@.len() == b.turbines@.len()
    &&& forall|i: int| 0 <= i < a.turbines@.len() ==> same_turbine(#[trigger] a.turbines@[i], b.turbines@[i])
    &&& a.output@ == b.output@
}

/// A new project has one turbine, the chosen folder as project path, terrain
/// awareness off, and a positive cell size and buffer.
pub proof fn lemma_new_project_shape(picked: Option<String>, r: Result<ProjectConfig, ResolveError>)
    requires
        new_post(picked, r),
        picked is Some,
    ensures
        r matches Ok(c) && c.turbines@.len() == 1 && c.project_path@ == picked->0@ && !c.terrain_aware
            && is_positive(c.cellsize_m.spec_text()) && is_positive(c.buffer_m.spec_text()),
{
    reveal_strlit("10");
    reveal_strlit("2000");
    let c = r->Ok_0;
    let cs = c.cellsize_m.spec_text();
    let bf = c.buffer_m.spec_text();
    assert('1' <= cs[0] && cs[0] <= '9');
    assert('1' <= bf[0] && bf[0] <= '9');
}

/// Opening a folder without a descriptor gives the same outcome as creating a
/// new project there.
pub proof fn lemma_open_without_descriptor_is_new(
    picked: Option<String>,
    opened: Result<ProjectConfig, ResolveError>,
    created: Result<ProjectConfig, ResolveError>,
)
    requires
        open_post(picked, None, opened),
        new_post(picked, created),
    ensures
        (opened is Err && created is Err) || (opened matches Ok(a) && created matches Ok(b) && same_project(a, b)),
        opened matches Err(e) ==> e is NoFolderSelected,
        created matches Err(e) ==> e is NoFolderSelected,
{
    if picked is Some {
        let a = opened->Ok_0;
        let b = created->Ok_0;
        assert forall|i: int| 0 <= i < a.turbines@.len() implies same_turbine(#[trigger] a.turbines@[i], b.turbines@[i]) by {
            assert(i == 0);
        }
        assert(a.dem_path@ =~= b.dem_path@);
    }
}

/// Opening a folder with a decodable, valid descriptor gives that descriptor with the
/// folder as project path, whatever path the descriptor held.
pub proof fn lemma_open_uses_chosen_folder(
    folder: String,
    cfg: ProjectConfig,
    r: Result<ProjectConfig, ResolveError>,
)
    requires
        open_post(Some(folder), Some(Ok(cfg)), r),
        config_ok(cfg),
    ensures
        r matches Ok(c) && c.project_path@ == folder@ && c.turbines == cfg.turbines,
{
}

/// The demo's elevation raster lies inside the demo folder, at the place its
/// refresh copies the raster to.
pub proof fn lemma_demo_raster_inside(
    loaded: Result<ProjectConfig, String>,
    source: Seq<char>,
    base: Seq<char>,
    plan: Seq<CopyStep>,
    r: Result<ProjectConfig, ResolveError>,
)
    requires
        demo_post(loaded, base, r),
        loaded matches Ok(cfg) && config_ok(cfg),
        plan.len() == 3,
        forall|i: int|
            0 <= i < 3 ==> (#[trigger] plan[i]).from@ == join_spec(source, demo_artifact(i))
                && plan[i].to@ == join_spec(base, demo_artifact(i)),
    ensures
        r matches Ok(c) && c.project_path@ == base && base.is_prefix_of(c.dem_path@)
            && c.dem_path@ == plan[0].to@,
{
    let c = r->Ok_0;
    assert(plan[0].to@ == join_spec(base, demo_artifact(0)));
    if base.len() > 0 {
        let d = c.dem_path@;
        assert(base.is_prefix_of(d)) by {
            assert forall|i: int| 0 <= i < base.len() implies base[i] == d[i] by {}
        }
    }
}

} // verus!
