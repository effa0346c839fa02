use inert::builder::config::{Config, Dependency, DEFAULT_HOST};
use inert::builder::markdown::{markdown_output, parse_markdown};
use inert::builder::utils::{get_workable_path, site_dir_path, site_file_path};
use inert::cmd::{
    build_root, classify_entry, install_start, install_step, parse_command, Command, EntryAction,
    InstallAction, InstallEvent, InstallState,
};

fn dep(name: &str, version: &str) -> Dependency {
    Dependency { name: name.to_string(), version: version.to_string(), alias: vec![] }
}

fn args(words: &[&str]) -> Vec<String> {
    words.iter().map(|w| w.to_string()).collect()
}

#[test]
fn config_new_is_empty() {
    let c = Config::new();
    assert_eq!(c.name, "");
    assert_eq!(c.description, "");
    assert!(c.keywords.is_empty());
    assert!(c.dependencies.is_empty());
}

#[test]
fn config_from_parsed_keeps_a_parsed_config() {
    let mut parsed = Config::new();
    parsed.name = "site".to_string();
    parsed.keywords.push("blog".to_string());
    let c = Config::from_parsed(Some(parsed));
    assert_eq!(c.name, "site");
    assert_eq!(c.keywords, vec!["blog".to_string()]);
}

#[test]
fn config_from_parsed_falls_back_to_empty() {
    let c = Config::from_parsed(None);
    assert_eq!(c.name, "");
    assert!(c.dependencies.is_empty());
}

#[test]
fn add_dependency_leaves_only_the_fetched_package() {
    let mut c = Config::new();
    c.name = "site".to_string();
    c.dependencies.push(dep("old", "1"));
    c.dependencies.push(dep("older", "0"));
    assert_eq!(c.add_dependency(Ok(dep("tailwindcss", "v3.4.1"))), Ok(()));
    assert_eq!(c.dependencies.len(), 1);
    assert_eq!(c.dependencies[0].name, "tailwindcss");
    assert_eq!(c.dependencies[0].version, "v3.4.1");
    assert_eq!(c.name, "site");
}

#[test]
fn add_dependency_keeps_config_on_failed_fetch() {
    let mut c = Config::new();
    c.dependencies.push(dep("old", "1"));
    let r = c.add_dependency(Err("unable to write {self.name}".to_string()));
    assert_eq!(r, Err("unable to write {self.name}".to_string()));
    assert_eq!(c.dependencies.len(), 1);
    assert_eq!(c.dependencies[0].name, "old");
}

#[test]
fn from_str_reads_name_and_version() {
    let d = Dependency::from_str("tailwindcss@v3.4.1").unwrap();
    assert_eq!(d.name, "tailwindcss");
    assert_eq!(d.version, "v3.4.1");
    assert!(d.alias.is_empty());
}

#[test]
fn from_str_stops_the_version_at_the_next_at_sign() {
    let d = Dependency::from_str("a@b@c").unwrap();
    assert_eq!(d.name, "a");
    assert_eq!(d.version, "b");
}

#[test]
fn from_str_accepts_empty_parts() {
    let d = Dependency::from_str("@").unwrap();
    assert_eq!(d.name, "");
    assert_eq!(d.version, "");
    let d = Dependency::from_str("pkg@").unwrap();
    assert_eq!(d.name, "pkg");
    assert_eq!(d.version, "");
}

#[test]
fn from_str_handles_non_ascii_text() {
    let d = Dependency::from_str("ü-pkg@1.0-β").unwrap();
    assert_eq!(d.name, "ü-pkg");
    assert_eq!(d.version, "1.0-β");
}

#[test]
fn from_str_refuses_a_spec_without_at_sign() {
    let e = Dependency::from_str("tailwindcss").unwrap_err();
    assert_eq!(e, "package paths are typically <pkg_name>@<pkg_version>");
    assert!(Dependency::from_str("").is_err());
}

#[test]
fn package_spec_roundtrip_on_values() {
    for (name, version) in [("a", "1"), ("tailwindcss", "v3.4.1"), ("", "x"), ("n", "")] {
        let d = Dependency::from_str(&format!("{name}@{version}")).unwrap();
        assert_eq!(d.name, name);
        assert_eq!(d.version, version);
    }
}

#[test]
fn host_defaults_to_the_release_host() {
    assert_eq!(Dependency::host_or_default(None), DEFAULT_HOST);
    assert_eq!(
        Dependency::host_or_default(None),
        "https://github.com/tailwindlabs/tailwindcss/releases/download"
    );
    assert_eq!(
        Dependency::host_or_default(Some("http://localhost:9000".to_string())),
        "http://localhost:9000"
    );
}

#[test]
fn download_url_and_build_target() {
    let d = dep("tailwindcss", "v3.4.1");
    assert_eq!(d.download_url("https://h"), "https://h/tailwindcss/v3.4.1");
    assert_eq!(d.build_target(), "_build/tailwindcss@v3.4.1");
}

#[test]
fn finish_fetch_reports_a_failed_write() {
    let ok = dep("a", "1").finish_fetch(true).unwrap();
    assert_eq!(ok.name, "a");
    let e = dep("a", "1").finish_fetch(false).unwrap_err();
    assert_eq!(e, "unable to write {self.name}");
}

#[test]
fn workable_path_of_a_nested_page() {
    let (dir, name, ext) = get_workable_path("docs/guide/intro.md");
    assert_eq!(dir, "docs/guide/");
    assert_eq!(name, "intro");
    assert_eq!(ext, "md");
}

#[test]
fn workable_path_drops_dots_from_directories() {
    let (dir, name, ext) = get_workable_path("./a/../b/page.tar.gz");
    assert_eq!(dir, "/a//b/");
    assert_eq!(name, "page");
    assert_eq!(ext, "tar.gz");
}

#[test]
fn workable_path_without_directory() {
    let (dir, name, ext) = get_workable_path("index.html");
    assert_eq!(dir, "");
    assert_eq!(name, "index");
    assert_eq!(ext, "html");
}

#[test]
fn workable_path_edge_cases() {
    assert_eq!(
        get_workable_path("a/.hidden"),
        ("a/".to_string(), "".to_string(), "hidden".to_string())
    );
    assert_eq!(get_workable_path("dir/"), ("dir/".to_string(), "".to_string(), "".to_string()));
    assert_eq!(get_workable_path(""), ("".to_string(), "".to_string(), "".to_string()));
    assert_eq!(get_workable_path("README"), ("".to_string(), "README".to_string(), "".to_string()));
}

#[test]
fn workable_path_rebuilds_the_last_item() {
    for path in ["x/y/z.md", "z.a.b", "q/r", "/abs/file.txt"] {
        let (_, name, ext) = get_workable_path(path);
        let item = path.rsplit('/').next().unwrap();
        if item.contains('.') {
            assert_eq!(format!("{name}.{ext}"), item);
        } else {
            assert_eq!(name, item);
            assert_eq!(ext, "");
        }
    }
}

#[test]
fn workable_path_directory_shape() {
    for path in ["x/y/z.md", "./x.y/z", "plain", "/root.d/"] {
        let (dir, _, _) = get_workable_path(path);
        assert!(!dir.contains('.'));
        assert_eq!(dir.is_empty(), !path.contains('/'));
        assert!(dir.is_empty() || dir.ends_with('/'));
    }
}

#[test]
fn site_paths_of_a_page() {
    assert_eq!(site_file_path("docs/intro.md", "html"), "./_site/docs//intro.html");
    assert_eq!(site_file_path("intro.md", "html"), "./_site//intro.html");
    assert_eq!(site_dir_path("/home/u/blog", "docs/intro.md"), "/home/u/blog/_site/docs/");
    assert_eq!(site_dir_path("/w", "intro.md"), "/w/_site/");
}

#[test]
fn markdown_renders_headings_and_strikethrough() {
    assert_eq!(parse_markdown(Some("# Hi")), "<h1>Hi</h1>\n");
    assert_eq!(parse_markdown(Some("~~gone~~")), "<p><del>gone</del></p>\n");
    assert_eq!(parse_markdown(None), "");
}

#[test]
fn markdown_output_keeps_the_source_layout() {
    assert_eq!(markdown_output(Some("docs/intro.md")), Ok("./_site/docs//intro.html".to_string()));
    assert_eq!(markdown_output(Some("blog/intro.md")), Ok("./_site/blog//intro.html".to_string()));
    assert_eq!(markdown_output(Some("./posts/a.b.md")), Ok("./_site//posts//a.html".to_string()));
    assert_eq!(markdown_output(Some("readme.md")), Ok("./_site//readme.html".to_string()));
    assert_eq!(markdown_output(None), Err("unable to parse file".to_string()));
}

#[test]
fn commands_are_read_from_the_second_argument() {
    assert!(matches!(parse_command(&args(&["inert"])), Command::Idle));
    assert!(matches!(parse_command(&args(&[])), Command::Idle));
    assert!(matches!(parse_command(&args(&["inert", "build"])), Command::Build(None)));
    match parse_command(&args(&["inert", "b", "site"])) {
        Command::Build(Some(t)) => assert_eq!(t, "site"),
        other => panic!("{other:?}"),
    }
    assert!(matches!(parse_command(&args(&["inert", "init"])), Command::Init));
    match parse_command(&args(&["inert", "install", "tailwindcss@v3"])) {
        Command::Install(p) => assert_eq!(p, "tailwindcss@v3"),
        other => panic!("{other:?}"),
    }
    assert!(matches!(parse_command(&args(&["inert", "install"])), Command::MissingPackage));
    assert!(matches!(parse_command(&args(&["inert", "serve"])), Command::Serve(8080)));
    assert!(matches!(parse_command(&args(&["inert", "--help"])), Command::Help));
    assert!(matches!(parse_command(&args(&["inert", "-v"])), Command::Version));
    assert!(matches!(parse_command(&args(&["inert", "deploy"])), Command::Help));
    assert!(matches!(parse_command(&args(&["inert", "Build"])), Command::Help));
}

#[test]
fn build_starts_from_target_or_current_dir() {
    assert_eq!(build_root(Some("blog")), "blog");
    assert_eq!(build_root(None), ".");
}

#[test]
fn entries_are_classified() {
    assert_eq!(classify_entry(Some("_site"), true, true, None), EntryAction::Skip);
    assert_eq!(classify_entry(Some("_build"), false, true, None), EntryAction::Skip);
    assert_eq!(classify_entry(Some("posts"), true, true, None), EntryAction::Descend);
    assert_eq!(classify_entry(Some("x.md"), true, false, Some("md")), EntryAction::RenderMarkdown);
    assert_eq!(classify_entry(Some("a.html"), false, true, Some("html")), EntryAction::RenderHtml);
    assert_eq!(classify_entry(None, false, true, Some(".html")), EntryAction::RenderHtml);
    assert_eq!(classify_entry(Some("b.md"), false, true, Some("md")), EntryAction::RenderMarkdown);
    assert_eq!(classify_entry(Some("c.txt"), false, true, Some("txt")), EntryAction::Ignore);
    assert_eq!(classify_entry(Some("Makefile"), false, true, None), EntryAction::Ignore);
}

fn finish(action: InstallAction) -> Result<(), String> {
    match action {
        InstallAction::Finish(r) => r,
        other => panic!("expected the end, got {other:?}"),
    }
}

#[test]
fn install_happy_path() {
    let pkg = "tailwindcss@v3.4.1";
    let (s, a) = install_start();
    assert!(matches!(a, InstallAction::LocateWorkingDir));
    let (s, a) = install_step(s, InstallEvent::WorkingDir(true), pkg);
    assert!(matches!(a, InstallAction::CheckBuildDir));
    let (s, a) = install_step(s, InstallEvent::BuildDirExists(false), pkg);
    assert!(matches!(a, InstallAction::CreateBuildDir));
    let (s, a) = install_step(s, InstallEvent::BuildDirCreated(true), pkg);
    assert!(matches!(a, InstallAction::CheckConfig));
    let (s, a) = install_step(s, InstallEvent::ConfigExists(true), pkg);
    assert!(matches!(a, InstallAction::LoadConfig));
    let mut loaded = Config::new();
    loaded.name = "site".to_string();
    loaded.dependencies.push(dep("old", "0"));
    let (s, a) = install_step(s, InstallEvent::ConfigLoaded(loaded), pkg);
    let fetched = match a {
        InstallAction::Fetch(d) => d,
        other => panic!("{other:?}"),
    };
    assert_eq!(fetched.name, "tailwindcss");
    assert_eq!(fetched.version, "v3.4.1");
    let (s, a) = install_step(s, InstallEvent::Fetched(Ok(fetched)), pkg);
    match &a {
        InstallAction::WriteConfig(c) => {
            assert_eq!(c.name, "site");
            assert_eq!(c.dependencies.len(), 1);
            assert_eq!(c.dependencies[0].name, "tailwindcss");
        }
        other => panic!("{other:?}"),
    }
    let (s, a) = install_step(s, InstallEvent::ConfigWritten(true), pkg);
    assert!(matches!(s, InstallState::Finished));
    assert_eq!(finish(a), Ok(()));
}

#[test]
fn install_without_working_dir_ends_quietly() {
    let (s, _) = install_start();
    let (_, a) = install_step(s, InstallEvent::WorkingDir(false), "p@1");
    assert_eq!(finish(a), Ok(()));
}

#[test]
fn install_errors() {
    let (s, _) = install_start();
    let (s, _) = install_step(s, InstallEvent::WorkingDir(true), "p@1");
    let (_, a) = install_step(s, InstallEvent::BuildDirExists(false), "p@1");
    assert!(matches!(a, InstallAction::CreateBuildDir));
    let (_, a) = install_step(InstallState::CreatingBuildDir, InstallEvent::BuildDirCreated(false), "p@1");
    assert_eq!(
        finish(a),
        Err("Error: cannot create _build directory to host dependency files".to_string())
    );
    let (_, a) = install_step(InstallState::CheckingConfig, InstallEvent::ConfigExists(false), "p@1");
    assert_eq!(
        finish(a),
        Err("Config file 'inert.json' not found. Please fun `$ inert init` or cd into the appropriate directory".to_string())
    );
    let (_, a) = install_step(InstallState::LoadingConfig, InstallEvent::ConfigLoaded(Config::new()), "p1");
    assert_eq!(
        finish(a),
        Err("package paths are typically <pkg_name>@<pkg_version>".to_string())
    );
    let (_, a) = install_step(
        InstallState::Fetching(Config::new()),
        InstallEvent::Fetched(Err("unable to write {self.name}".to_string())),
        "p@1",
    );
    assert_eq!(finish(a), Err("unable to write {self.name}".to_string()));
    let (_, a) = install_step(InstallState::Writing, InstallEvent::ConfigWritten(false), "p@1");
    assert_eq!(finish(a), Err("unable to update inert.json".to_string()));
}
