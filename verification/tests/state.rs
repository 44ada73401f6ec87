use climm::download::Download;
use climm::error::Error;
use climm::game::{Config, Game};
use climm::global::GlobalConfig;
use climm::layout::{downloads_dir, extracted_dir, game_config_file, game_dir, global_config};
use climm::managed::{DeploymentMethod, ManagedMod};

fn text(s: &str) -> String {
    s.to_string()
}

fn empty_game(data: Option<&str>) -> Game {
    Game { name: text("skyrim"), config: Config::new(text("/g"), data.map(text), None) }
}

fn add_named(game: &mut Game, file: &str) {
    let download = Download::plan("/lib/skyrim/downloads", file, false).unwrap();
    game.add(&download);
}

#[test]
fn new_mod_is_disabled_and_bare() {
    let mm = ManagedMod::new(text("/d/a.zip"));
    assert_eq!(
        mm,
        ManagedMod { enabled: false, extracted: None, archive: text("/d/a.zip"), parts: vec![] }
    );
    assert_eq!(ManagedMod::default().archive, "");
}

#[test]
fn part_paths_prefers_parts() {
    let mut mm = ManagedMod::new(text("/d/a.zip"));
    assert_eq!(mm.part_paths(), Vec::<String>::new());
    mm.extracted = Some(text("/e/a"));
    assert_eq!(mm.part_paths(), vec![text("/e/a")]);
    mm.parts = vec![text("/e/a/core"), text("/e/a/opt")];
    assert_eq!(mm.part_paths(), vec![text("/e/a/core"), text("/e/a/opt")]);
    mm.extracted = None;
    assert_eq!(mm.part_paths(), vec![text("/e/a/core"), text("/e/a/opt")]);
}

#[test]
fn default_deployment_is_hardlink() {
    assert_eq!(DeploymentMethod::default(), DeploymentMethod::Hardlink);
    assert_eq!(empty_game(None).config.deployment, DeploymentMethod::Hardlink);
}

#[test]
fn install_dir_without_data_folder_is_game_folder() {
    assert_eq!(empty_game(None).install_dir(), "/g");
}

#[test]
fn install_dir_with_data_folder_is_joined() {
    assert_eq!(empty_game(Some("Data")).install_dir(), "/g/Data");
}

#[test]
fn layout_below_the_library() {
    assert_eq!(game_dir("/lib", "skyrim"), "/lib/skyrim");
    assert_eq!(downloads_dir("/lib", "skyrim"), "/lib/skyrim/downloads");
    assert_eq!(extracted_dir("/lib", "skyrim", "a"), "/lib/skyrim/extracted/a");
    assert_eq!(game_config_file("/lib", "skyrim"), "/lib/skyrim/climm.toml");
    assert_eq!(global_config("/lib"), "/lib/global.toml");
    assert_eq!(empty_game(None).config_file("/lib"), "/lib/skyrim/climm.toml");
}

#[test]
fn init_game_registers_and_activates() {
    let mut global = GlobalConfig::default();
    let game = global
        .init_game(text("skyrim"), text("/g"), Some(text("Data")), Some(text("/p.txt")))
        .unwrap();
    assert_eq!(game.name, "skyrim");
    assert_eq!(game.config.game_folder, "/g");
    assert_eq!(game.config.data_folder, Some(text("Data")));
    assert_eq!(game.config.plugins_file, Some(text("/p.txt")));
    assert_eq!(game.config.deployment, DeploymentMethod::Hardlink);
    assert_eq!(game.config.mods.len(), 0);
    assert_eq!(global.active_game, Some(text("skyrim")));
    assert_eq!(global.games, vec![text("skyrim")]);
    assert!(global.knows("skyrim"));
    assert!(!global.knows("Skyrim"));
}

#[test]
fn init_game_twice_is_already_managed() {
    let mut global = GlobalConfig::default();
    assert!(global.init_game(text("skyrim"), text("/g"), None, None).is_ok());
    assert!(global.init_game(text("fallout"), text("/f"), None, None).is_ok());
    let second = global.init_game(text("skyrim"), text("/other"), None, None);
    assert_eq!(second.err(), Some(Error::AlreadyManaged(text("skyrim"))));
    assert_eq!(global.games, vec![text("skyrim"), text("fallout")]);
    assert_eq!(global.active_game, Some(text("fallout")));
}

#[test]
fn game_lookup_knows_only_managed_names() {
    let mut global = GlobalConfig::default();
    assert_eq!(global.game("skyrim"), Err(Error::UnknownGame(text("skyrim"))));
    global.init_game(text("skyrim"), text("/g"), None, None).unwrap();
    assert_eq!(global.game("skyrim"), Ok(text("skyrim")));
    assert_eq!(global.game("oblivion"), Err(Error::UnknownGame(text("oblivion"))));
}

#[test]
fn active_game_needs_a_marked_and_known_name() {
    let mut global = GlobalConfig::default();
    assert_eq!(global.active_game(), Err(Error::NoActiveGame));
    global.init_game(text("skyrim"), text("/g"), None, None).unwrap();
    assert_eq!(global.active_game(), Ok(text("skyrim")));
    global.active_game = Some(text("gone"));
    assert_eq!(global.active_game(), Err(Error::UnknownGame(text("gone"))));
}

#[test]
fn download_plan_names_mod_by_stem() {
    let download = Download::plan("/lib/skyrim/downloads", "/src/Cool Mod.7z", true).unwrap();
    assert_eq!(
        download,
        Download {
            source: text("/src/Cool Mod.7z"),
            target: text("/lib/skyrim/downloads/Cool Mod.7z"),
            name: text("Cool Mod"),
            mv: true,
        }
    );
    let plain = Download::plan("/dl", "archive", false).unwrap();
    assert_eq!(plain.name, "archive");
    assert_eq!(plain.target, "/dl/archive");
    assert!(!plain.mv);
}

#[test]
fn download_plan_skips_path_without_file_name() {
    assert_eq!(Download::plan("/dl", "/", false), None);
    assert_eq!(Download::plan("/dl", "/src/..", false), None);
    assert_eq!(Download::plan("/dl", "", true), None);
}

#[test]
fn add_appends_in_order() {
    let mut game = empty_game(None);
    add_named(&mut game, "/src/b.zip");
    add_named(&mut game, "/src/a.zip");
    let names: Vec<&String> = game.config.mods.keys().collect();
    assert_eq!(names, vec!["b", "a"]);
    assert_eq!(
        game.config.mods.get_index(1).unwrap().1,
        &ManagedMod::new(text("/lib/skyrim/downloads/a.zip"))
    );
}

#[test]
fn add_same_stem_replaces_in_place() {
    let mut game = empty_game(None);
    add_named(&mut game, "/src/a.zip");
    add_named(&mut game, "/src/b.zip");
    {
        let (_, mm) = game.get_mod("a").unwrap();
        mm.enabled = true;
        mm.extracted = Some(text("/e/a"));
    }
    add_named(&mut game, "/elsewhere/a.7z");
    assert_eq!(game.config.mods.len(), 2);
    let (name, mm) = game.config.mods.get_index(0).unwrap();
    assert_eq!(name, "a");
    assert_eq!(mm, &ManagedMod::new(text("/lib/skyrim/downloads/a.7z")));
    assert_eq!(game.config.mods.get_index(1).unwrap().0, "b");
}

#[test]
fn find_mod_ignores_case_and_takes_the_first() {
    let mut game = empty_game(None);
    add_named(&mut game, "/src/SkyUI.zip");
    add_named(&mut game, "/src/Unofficial Patch.zip");
    add_named(&mut game, "/src/Sky Patch.zip");
    assert_eq!(game.find_mod("sky"), Ok(0));
    assert_eq!(game.find_mod("PATCH"), Ok(1));
    assert_eq!(game.find_mod("y p"), Ok(2));
    assert_eq!(game.find_mod(""), Ok(0));
}

#[test]
fn find_mod_reports_the_lowercased_query() {
    let mut game = empty_game(None);
    assert_eq!(game.find_mod("Any"), Err(Error::UnknownMod(text("any"))));
    add_named(&mut game, "/src/SkyUI.zip");
    assert_eq!(game.find_mod("SkyUI2"), Err(Error::UnknownMod(text("skyui2"))));
}

#[test]
fn get_mod_hands_out_the_mod_for_change() {
    let mut game = empty_game(None);
    add_named(&mut game, "/src/SkyUI.zip");
    add_named(&mut game, "/src/Other.zip");
    {
        let (name, mm) = game.get_mod("OTHER").unwrap();
        assert_eq!(name, "Other");
        assert!(!mm.enabled);
        mm.enabled = true;
    }
    assert!(!game.config.mods.get_index(0).unwrap().1.enabled);
    assert!(game.config.mods.get_index(1).unwrap().1.enabled);
    match game.get_mod("Missing") {
        Err(e) => assert_eq!(e, Error::UnknownMod(text("missing"))),
        Ok(_) => panic!("no mod answers this query"),
    }
}

#[test]
fn download_stem_is_what_precedes_the_last_dot() {
    let name_of = |source: &str| Download::plan("/dl", source, false).unwrap().name;
    assert_eq!(name_of("/src/a.tar.gz"), "a.tar");
    assert_eq!(name_of("/src/.hidden"), ".hidden");
    assert_eq!(name_of("/src/.hidden.zip"), ".hidden");
    assert_eq!(name_of("/src/plain"), "plain");
    assert_eq!(name_of("/src/trailing."), "trailing");
    assert_eq!(name_of("/src/dir.d/"), "dir");
    assert_eq!(Download::plan("/dl", "/src/dir.d/", false).unwrap().target, "/dl/dir.d");
}

#[test]
fn find_mod_lowercases_beyond_ascii() {
    let mut game = empty_game(None);
    add_named(&mut game, "/src/\u{dc}berpatch.zip");
    assert_eq!(game.find_mod("\u{dc}BER"), Ok(0));
    assert_eq!(game.find_mod("\u{fc}berpatch"), Ok(0));
    assert_eq!(game.find_mod("uber"), Err(Error::UnknownMod("uber".to_string())));
}
