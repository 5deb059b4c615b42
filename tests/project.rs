use wind_shadow_launcher::number::Decimal;
use wind_shadow_launcher::project::{
    default_project, demo_copy_plan, descriptor_path, join_path, parse_mode, resolve_demo, resolve_new,
    resolve_open, Mode, ProjectConfig, ResolveError,
};
use wind_shadow_launcher::turbine::Turbine;

fn stored_config() -> ProjectConfig {
    ProjectConfig {
        project_path: "/somewhere/else".to_string(),
        epsg: "EPSG:25832".to_string(),
        cellsize_m: Decimal::parse("5").unwrap(),
        buffer_m: Decimal::parse("1500.5").unwrap(),
        terrain_aware: true,
        dem_path: "/data/dem.tif".to_string(),
        turbines: vec![
            Turbine {
                id: "A".to_string(),
                x: Decimal::parse("1").unwrap(),
                y: Decimal::parse("2").unwrap(),
                hub_height_m: Decimal::parse("100").unwrap(),
                rotor_diameter_m: Decimal::parse("90").unwrap(),
            },
            Turbine {
                id: "B".to_string(),
                x: Decimal::parse("3").unwrap(),
                y: Decimal::parse("4").unwrap(),
                hub_height_m: Decimal::parse("110").unwrap(),
                rotor_diameter_m: Decimal::parse("95").unwrap(),
            },
        ],
        output: "{\"format\":\"png\"}".to_string(),
    }
}

#[test]
fn modes_parse() {
    assert_eq!(parse_mode("demo"), Mode::Demo);
    assert_eq!(parse_mode("open"), Mode::Open);
    assert_eq!(parse_mode("new"), Mode::New);
    assert_eq!(parse_mode("Demo"), Mode::New);
    assert_eq!(parse_mode(""), Mode::New);
}

#[test]
fn new_project_defaults() {
    let c = resolve_new(Some("/projects/p1".to_string())).unwrap();
    assert_eq!(c.project_path, "/projects/p1");
    assert_eq!(c.epsg, "EPSG:32632");
    assert_eq!(c.cellsize_m.text(), "10");
    assert_eq!(c.buffer_m.text(), "2000");
    assert!(!c.terrain_aware);
    assert_eq!(c.dem_path, "");
    assert_eq!(c.turbines.len(), 1);
    assert_eq!(c.turbines[0].id, "T1");
    assert_eq!(c.turbines[0].x.text(), "500100");
    assert_eq!(c.turbines[0].y.text(), "5000100");
    assert_eq!(c.turbines[0].hub_height_m.text(), "120");
    assert_eq!(c.turbines[0].rotor_diameter_m.text(), "140");
    assert_eq!(c.output, "{\"format\":\"both\"}");
}

#[test]
fn cancelled_folder_pick_fails() {
    assert!(matches!(resolve_new(None), Err(ResolveError::NoFolderSelected)));
    assert!(matches!(resolve_open(None, None), Err(ResolveError::NoFolderSelected)));
    assert_eq!(ResolveError::NoFolderSelected.message(), "no folder selected");
}

#[test]
fn open_overrides_stored_path() {
    let c = resolve_open(Some("/chosen".to_string()), Some(Ok(stored_config()))).unwrap();
    assert_eq!(c.project_path, "/chosen");
    assert_eq!(c.epsg, "EPSG:25832");
    assert_eq!(c.dem_path, "/data/dem.tif");
    assert!(c.terrain_aware);
    assert_eq!(c.turbines.len(), 2);
    assert_eq!(c.turbines[1].id, "B");
}

#[test]
fn open_without_descriptor_is_new() {
    let a = resolve_open(Some("/empty".to_string()), None).unwrap();
    let b = resolve_new(Some("/empty".to_string())).unwrap();
    assert_eq!(a.project_path, b.project_path);
    assert_eq!(a.epsg, b.epsg);
    assert_eq!(a.cellsize_m.text(), b.cellsize_m.text());
    assert_eq!(a.buffer_m.text(), b.buffer_m.text());
    assert_eq!(a.turbines.len(), b.turbines.len());
    assert_eq!(a.turbines[0].id, b.turbines[0].id);
    assert_eq!(a.output, b.output);
}

#[test]
fn malformed_descriptor_fails() {
    let r = resolve_open(Some("/p".to_string()), Some(Err("expected value at line 1".to_string())));
    match r {
        Err(ResolveError::Descriptor(m)) => assert_eq!(m, "expected value at line 1"),
        _ => panic!("expected a descriptor failure"),
    }
}

#[test]
fn demo_paths_point_into_copy() {
    let c = resolve_demo(Ok(stored_config()), "/home/u/Documents/WindShadowStudio/Demo").unwrap();
    assert_eq!(c.project_path, "/home/u/Documents/WindShadowStudio/Demo");
    assert_eq!(c.dem_path, "/home/u/Documents/WindShadowStudio/Demo/demo_dem.asc");
    assert_eq!(c.epsg, "EPSG:25832");
    assert!(matches!(resolve_demo(Err("bad".to_string()), "/d"), Err(ResolveError::Descriptor(_))));
}

#[test]
fn demo_refresh_plan_is_stable() {
    let a = demo_copy_plan("../demo", "/d/Demo");
    let b = demo_copy_plan("../demo", "/d/Demo");
    assert_eq!(a.len(), 3);
    assert_eq!(a[0].from, "../demo/demo_dem.asc");
    assert_eq!(a[0].to, "/d/Demo/demo_dem.asc");
    assert_eq!(a[1].to, "/d/Demo/demo_turbines.csv");
    assert_eq!(a[2].to, "/d/Demo/demo_project.wssproj.json");
    for i in 0..3 {
        assert_eq!(a[i].from, b[i].from);
        assert_eq!(a[i].to, b[i].to);
    }
}

#[test]
fn path_joining() {
    assert_eq!(join_path("/a", "b"), "/a/b");
    assert_eq!(join_path("/a/", "b"), "/a/b");
    assert_eq!(join_path("", "b"), "b");
    assert_eq!(join_path("C:\\docs\\", "b"), "C:\\docs\\b");
    assert_eq!(descriptor_path("/p"), "/p/project.wssproj.json");
}

#[test]
fn default_project_in_folder() {
    let c = default_project("/x");
    assert_eq!(c.project_path, "/x");
    assert_eq!(c.turbines.len(), 1);
}

#[test]
fn invalid_descriptor_settings_refused() {
    let mut c = stored_config();
    c.cellsize_m = Decimal::parse("0").unwrap();
    let r = resolve_open(Some("/p".to_string()), Some(Ok(c)));
    assert!(matches!(r, Err(ResolveError::InvalidSetting(ref f)) if f == "cellsize_m"));
    let mut c = stored_config();
    c.buffer_m = Decimal::parse("-5").unwrap();
    let r = resolve_demo(Ok(c), "/d");
    assert!(matches!(r, Err(ResolveError::InvalidSetting(ref f)) if f == "buffer_m"));
    let mut c = stored_config();
    c.turbines[1].rotor_diameter_m = Decimal::parse("-95").unwrap();
    let r = resolve_open(Some("/p".to_string()), Some(Ok(c)));
    match r {
        Err(e) => assert_eq!(e.message(), "invalid project setting `turbines`"),
        Ok(_) => panic!("expected a refusal"),
    }
}
