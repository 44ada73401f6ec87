use climm::download::Download;
use climm::error::Error;
use climm::extract::Extraction;
use climm::game::{Config, Game};
use climm::install::{found_module_config, InstallAction, InstallEvent};
use climm::links::{LinkKind, LinkOp};
use climm::managed::{DeploymentMethod, ManagedMod};
use climm::paths::{climbs, differ};
use climm::plugins::{manifest_of, plugin_extension, Manifest};
use climm::uninstall::Removal;
use climm::walk::{EntryKind, WalkEntry};

fn s(text: &str) -> String {
    text.to_string()
}

fn file_at(path: &str) -> WalkEntry {
    WalkEntry { path: s(path), kind: EntryKind::File }
}

fn dir_at(path: &str) -> WalkEntry {
    WalkEntry { path: s(path), kind: EntryKind::Directory }
}

fn game_of(mods: &[(&str, bool, Option<&str>)]) -> Game {
    let mut game = Game { name: s("skyrim"), config: Config::new(s("/g"), Some(s("Data")), None) };
    for (name, enabled, extracted) in mods {
        let source = format!("/src/{}.zip", name);
        game.add(&Download::plan("/lib/skyrim/downloads", &source, false).unwrap());
        let index = game.config.mods.get_index_of(*name).unwrap();
        let mm = game.config.mods.get_index_mut(index).unwrap().1;
        mm.enabled = *enabled;
        mm.extracted = extracted.map(s);
    }
    game
}

#[test]
fn differ_gives_the_suffix_below_the_root() {
    assert_eq!(differ("/e/a", "/e/a/foo.txt"), Ok(s("foo.txt")));
    assert_eq!(differ("/e/a", "/e/a/sub/dir/f.esp"), Ok(s("sub/dir/f.esp")));
    assert_eq!(differ("/e/a/", "/e/a/sub"), Ok(s("sub")));
    assert_eq!(differ("e/a", "e/a/x"), Ok(s("x")));
}

#[test]
fn differ_of_the_root_itself_is_empty() {
    assert_eq!(differ("/e/a", "/e/a"), Ok(s("")));
}

#[test]
fn differ_refuses_what_is_not_below() {
    assert_eq!(differ("/e/a", "/e/b/foo.txt"), Err(Error::NotADescendant(s("/e/b/foo.txt"))));
    assert_eq!(differ("/e/a", "/e"), Err(Error::NotADescendant(s("/e"))));
    assert_eq!(differ("/e/a", "/e/ab"), Err(Error::NotADescendant(s("/e/ab"))));
    assert_eq!(differ("/e/a", "/e/a/x/../../b"), Err(Error::NotADescendant(s("/e/a/x/../../b"))));
}

#[test]
fn differ_refuses_mixed_absolute_and_relative() {
    assert_eq!(differ("e/a", "/e/a/x"), Err(Error::NotADescendant(s("/e/a/x"))));
    assert_eq!(differ("/e/a", "e/a/x"), Err(Error::NotADescendant(s("e/a/x"))));
}

#[test]
fn climbs_sees_parent_components_only() {
    assert!(climbs(".."));
    assert!(climbs("../x"));
    assert!(climbs("x/.."));
    assert!(climbs("x/../y"));
    assert!(climbs("/abs"));
    assert!(climbs("/"));
    assert!(!climbs(""));
    assert!(!climbs("."));
    assert!(!climbs("x"));
    assert!(!climbs("..x"));
    assert!(!climbs("x.."));
    assert!(!climbs("a/..b/c"));
    assert!(!climbs("a/b../c"));
    assert!(!climbs("..."));
    assert!(!climbs("a/.../b"));
    assert!(!climbs("\u{e9}t\u{e9}/..\u{e9}"));
    assert!(climbs("\u{e9}t\u{e9}/../x"));
}

#[test]
fn module_config_is_found_by_file_name() {
    assert!(!found_module_config(&vec![]));
    assert!(!found_module_config(&vec![dir_at("/e/c"), file_at("/e/c/readme.txt")]));
    assert!(found_module_config(&vec![
        dir_at("/e/c"),
        dir_at("/e/c/fomod"),
        file_at("/e/c/fomod/ModuleConfig.xml"),
    ]));
    assert!(!found_module_config(&vec![file_at("/e/c/fomod/moduleconfig.xml")]));
    assert!(!found_module_config(&vec![file_at("/e/c/ModuleConfig.xml/other")]));
    assert!(!found_module_config(&vec![dir_at("/e/c/ModuleConfig.xml")]));
}

#[test]
fn install_skips_disabled_and_unextracted_mods() {
    let mut game = game_of(&[("a", false, Some("/e/a")), ("b", true, None)]);
    assert_eq!(game.install(0, InstallEvent::Begin), InstallAction::Skip);
    assert_eq!(game.install(1, InstallEvent::Begin), InstallAction::Skip);
    assert_eq!(game.install(1, InstallEvent::Selected(vec![s("/e/b/x")])), InstallAction::Skip);
    assert_eq!(game.config.mods.get_index(1).unwrap().1.parts, Vec::<String>::new());
    assert_eq!(game.install(2, InstallEvent::Begin), InstallAction::Skip);
}

#[test]
fn install_without_parts_searches_then_deploys_the_tree() {
    let mut game = game_of(&[("a", true, Some("/e/a"))]);
    assert_eq!(game.install(0, InstallEvent::Begin), InstallAction::Search(s("/e/a")));
    let walk = vec![dir_at("/e/a"), file_at("/e/a/foo.txt")];
    assert_eq!(
        game.install(0, InstallEvent::Searched(walk)),
        InstallAction::Deploy(vec![s("/e/a")])
    );
    assert_eq!(game.config.mods.get_index(0).unwrap().1.parts, Vec::<String>::new());
}

#[test]
fn install_with_module_config_asks_the_selector_once() {
    let mut game = game_of(&[("c", true, Some("/e/c"))]);
    let walk = vec![dir_at("/e/c"), file_at("/e/c/ModuleConfig.xml")];
    assert_eq!(
        game.install(0, InstallEvent::Searched(walk.clone())),
        InstallAction::Select(s("/e/c"))
    );
    let chosen = vec![s("/e/c/core"), s("/e/c/opt1")];
    assert_eq!(
        game.install(0, InstallEvent::Selected(chosen.clone())),
        InstallAction::Deploy(chosen.clone())
    );
    assert_eq!(game.config.mods.get_index(0).unwrap().1.parts, chosen);
    assert_eq!(game.install(0, InstallEvent::Begin), InstallAction::Deploy(chosen.clone()));
    assert_eq!(game.install(0, InstallEvent::Searched(walk)), InstallAction::Deploy(chosen));
}

#[test]
fn install_with_parts_never_searches_or_selects() {
    let mut game = game_of(&[("c", true, Some("/e/c"))]);
    game.config.mods.get_index_mut(0).unwrap().1.parts = vec![s("/e/c/core")];
    let parts = vec![s("/e/c/core")];
    assert_eq!(game.install(0, InstallEvent::Begin), InstallAction::Deploy(parts.clone()));
    assert_eq!(
        game.install(0, InstallEvent::Searched(vec![file_at("/e/c/ModuleConfig.xml")])),
        InstallAction::Deploy(parts.clone())
    );
    assert_eq!(
        game.install(0, InstallEvent::Selected(vec![s("/e/c/other")])),
        InstallAction::Deploy(parts.clone())
    );
    assert_eq!(game.config.mods.get_index(0).unwrap().1.parts, parts);
}

#[test]
fn install_with_empty_selection_deploys_nothing() {
    let mut mm = ManagedMod::new(s("/d/c.zip"));
    mm.enabled = true;
    mm.extracted = Some(s("/e/c"));
    assert_eq!(mm.install(InstallEvent::Selected(vec![])), InstallAction::Deploy(vec![]));
    assert_eq!(mm.install(InstallEvent::Begin), InstallAction::Search(s("/e/c")));
}

#[test]
fn link_kind_follows_method_and_platform() {
    assert_eq!(DeploymentMethod::Hardlink.link_kind(true), LinkKind::Hard);
    assert_eq!(DeploymentMethod::Hardlink.link_kind(false), LinkKind::Hard);
    assert_eq!(DeploymentMethod::Symlink.link_kind(true), LinkKind::Symbolic);
    assert_eq!(DeploymentMethod::Symlink.link_kind(false), LinkKind::Hard);
}

#[test]
fn link_plan_links_files_into_the_install_dir() {
    let game = game_of(&[("a", true, Some("/e/a"))]);
    let walk = vec![
        dir_at("/e/a"),
        file_at("/e/a/foo.txt"),
        dir_at("/e/a/textures"),
        file_at("/e/a/textures/sky.dds"),
    ];
    assert_eq!(
        game.link_plan("/e/a", &walk, true),
        Ok(vec![
            LinkOp { source: s("/e/a/foo.txt"), target: s("/g/Data/foo.txt"), kind: LinkKind::Hard },
            LinkOp {
                source: s("/e/a/textures/sky.dds"),
                target: s("/g/Data/textures/sky.dds"),
                kind: LinkKind::Hard,
            },
        ])
    );
    assert_eq!(game.link_plan("/e/a", &vec![], true), Ok(vec![]));
}

#[test]
fn link_plan_of_a_part_is_relative_to_the_part() {
    let mut game = game_of(&[("c", true, Some("/e/c"))]);
    game.config.deployment = DeploymentMethod::Symlink;
    let walk = vec![dir_at("/e/c/core"), file_at("/e/c/core/meshes/m.nif")];
    assert_eq!(
        game.link_plan("/e/c/core", &walk, true),
        Ok(vec![LinkOp {
            source: s("/e/c/core/meshes/m.nif"),
            target: s("/g/Data/meshes/m.nif"),
            kind: LinkKind::Symbolic,
        }])
    );
    assert_eq!(
        game.link_plan("/e/c/core", &walk, false).unwrap()[0].kind,
        LinkKind::Hard
    );
}

#[test]
fn link_plan_fails_on_the_first_stray_file() {
    let game = game_of(&[("a", true, Some("/e/a"))]);
    let walk = vec![
        file_at("/e/a/ok.txt"),
        dir_at("/elsewhere"),
        file_at("/e/b/stray.txt"),
        file_at("/e/z/second.txt"),
    ];
    assert_eq!(
        game.link_plan("/e/a", &walk, true),
        Err(Error::NotADescendant(s("/e/b/stray.txt")))
    );
}

#[test]
fn extract_lists_enabled_unextracted_mods_in_order() {
    let game = game_of(&[
        ("a", true, None),
        ("b", false, None),
        ("c", true, Some("/lib/skyrim/extracted/c")),
        ("d", true, None),
    ]);
    assert_eq!(
        game.extract("/lib"),
        vec![
            Extraction {
                index: 0,
                name: s("a"),
                archive: s("/lib/skyrim/downloads/a.zip"),
                target: s("/lib/skyrim/extracted/a"),
            },
            Extraction {
                index: 3,
                name: s("d"),
                archive: s("/lib/skyrim/downloads/d.zip"),
                target: s("/lib/skyrim/extracted/d"),
            },
        ]
    );
}

#[test]
fn extraction_command_is_7z_x_archive_o_target() {
    let job = Extraction {
        index: 0,
        name: s("a"),
        archive: s("/lib/skyrim/downloads/a.zip"),
        target: s("/lib/skyrim/extracted/a"),
    };
    assert_eq!(
        job.command(),
        vec![s("7z"), s("x"), s("/lib/skyrim/downloads/a.zip"), s("-o/lib/skyrim/extracted/a")]
    );
}

#[test]
fn record_extraction_sets_the_directory_once() {
    let mut game = game_of(&[("a", true, None), ("b", false, None)]);
    assert!(game.record_extraction(0, s("/x/a")));
    assert_eq!(game.config.mods.get_index(0).unwrap().1.extracted, Some(s("/x/a")));
    assert!(!game.record_extraction(0, s("/y/a")));
    assert_eq!(game.config.mods.get_index(0).unwrap().1.extracted, Some(s("/x/a")));
    assert!(!game.record_extraction(1, s("/x/b")));
    assert_eq!(game.config.mods.get_index(1).unwrap().1.extracted, None);
    assert!(!game.record_extraction(2, s("/x/c")));
    assert!(game.extract("/lib").is_empty());
}

#[test]
fn uninstall_roots_are_all_extracted_trees() {
    let game = game_of(&[("a", true, Some("/e/a")), ("b", true, None), ("c", false, Some("/e/c"))]);
    assert_eq!(game.uninstall_roots(), vec![s("/e/a"), s("/e/c")]);
}

#[test]
fn uninstall_clears_children_before_parents() {
    let game = game_of(&[("a", false, Some("/e/a"))]);
    let walk = vec![
        dir_at("/e/a"),
        dir_at("/e/a/textures"),
        file_at("/e/a/textures/sky.dds"),
        file_at("/e/a/foo.txt"),
    ];
    assert_eq!(
        game.uninstall("/e/a", &walk),
        Ok(vec![
            Removal { target: s("/g/Data/foo.txt"), directory: false },
            Removal { target: s("/g/Data/textures/sky.dds"), directory: false },
            Removal { target: s("/g/Data/textures"), directory: true },
            Removal { target: s("/g/Data/"), directory: true },
        ])
    );
    assert_eq!(game.uninstall("/e/a", &vec![]), Ok(vec![]));
}

#[test]
fn uninstall_fails_on_the_first_stray_entry() {
    let game = game_of(&[("a", true, Some("/e/a"))]);
    let walk = vec![file_at("/e/a/x"), dir_at("/other"), file_at("/e/b/y")];
    assert_eq!(game.uninstall("/e/a", &walk), Err(Error::NotADescendant(s("/other"))));
}

#[test]
fn plugin_extensions_are_exact() {
    assert!(plugin_extension(&s("esp")));
    assert!(plugin_extension(&s("esm")));
    assert!(plugin_extension(&s("esl")));
    assert!(!plugin_extension(&s("ESP")));
    assert!(!plugin_extension(&s("Esm")));
    assert!(!plugin_extension(&s("es")));
    assert!(!plugin_extension(&s("espx")));
    assert!(!plugin_extension(&s("txt")));
    assert!(!plugin_extension(&s("")));
}

#[test]
fn manifest_lists_plugins_by_file_name() {
    let walk = vec![
        dir_at("/e/a"),
        file_at("/e/a/x.esp"),
        file_at("/e/a/sub/y.esm"),
        file_at("/e/a/z.txt"),
        file_at("/e/a/light.esl"),
        file_at("/e/a/LOUD.ESP"),
        file_at("/e/a/esp"),
        dir_at("/e/a/folder.esp"),
        file_at("/e/a/two.dots.esp"),
    ];
    assert_eq!(manifest_of(&walk), "*x.esp\n*y.esm\n*light.esl\n*two.dots.esp\n");
    assert_eq!(manifest_of(&vec![]), "");
}

#[test]
fn manifest_repeats_a_repeated_name() {
    let walk = vec![file_at("/e/a/x.esp"), file_at("/e/b/x.esp")];
    assert_eq!(manifest_of(&walk), "*x.esp\n*x.esp\n");
}

#[test]
fn manifest_of_joined_walks_is_the_joined_manifests() {
    let first = vec![file_at("/e/a/b.esp"), file_at("/e/a/a.esm")];
    let second = vec![file_at("/e/b/readme.md"), file_at("/e/b/c.esl")];
    let mut both = first.clone();
    both.extend(second.clone());
    assert_eq!(manifest_of(&both), format!("{}{}", manifest_of(&first), manifest_of(&second)));
    assert_eq!(manifest_of(&both), "*b.esp\n*a.esm\n*c.esl\n");
}

#[test]
fn plugin_roots_are_those_of_enabled_mods() {
    let mut game = game_of(&[
        ("a", true, Some("/e/a")),
        ("b", false, Some("/e/b")),
        ("c", true, Some("/e/c")),
        ("d", true, None),
    ]);
    game.config.mods.get_index_mut(2).unwrap().1.parts = vec![s("/e/c/core"), s("/e/c/opt1")];
    assert_eq!(game.plugin_roots(), vec![s("/e/a"), s("/e/c/core"), s("/e/c/opt1")]);
}

#[test]
fn write_plugins_needs_a_plugins_file() {
    let mut game = game_of(&[("a", true, Some("/e/a"))]);
    let walk = vec![file_at("/e/a/x.esp")];
    assert_eq!(game.write_plugins(&walk), None);
    game.config.plugins_file = Some(s("/p.txt"));
    assert_eq!(
        game.write_plugins(&walk),
        Some(Manifest { path: s("/p.txt"), text: s("*x.esp\n") })
    );
    assert_eq!(game.write_plugins(&vec![]), Some(Manifest { path: s("/p.txt"), text: s("") }));
}

#[test]
fn manifest_takes_the_extension_after_the_last_dot() {
    let walk = vec![
        file_at("/e/a/.esp"),
        file_at("/e/a/a.esp.bak"),
        file_at("/e/a/b.bak.esm"),
        file_at("/e/a/c.esp."),
        file_at("/e/a/..esl"),
        file_at("/e/a.esp/plain"),
        file_at("/e/a/d.esl/"),
    ];
    assert_eq!(manifest_of(&walk), "*b.bak.esm\n*..esl\n*d.esl\n");
}

#[test]
fn symbolic_links_in_a_tree_are_neither_linked_nor_listed() {
    let game = game_of(&[("a", true, Some("/e/a"))]);
    let walk = vec![
        WalkEntry { path: s("/e/a/link.esp"), kind: EntryKind::Other },
        file_at("/e/a/real.esp"),
    ];
    assert_eq!(game.link_plan("/e/a", &walk, true).unwrap().len(), 1);
    assert_eq!(manifest_of(&walk), "*real.esp\n");
    assert_eq!(
        game.uninstall("/e/a", &walk),
        Ok(vec![
            Removal { target: s("/g/Data/real.esp"), directory: false },
            Removal { target: s("/g/Data/link.esp"), directory: false },
        ])
    );
}
