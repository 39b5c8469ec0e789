use twitch::fuel::{find_manifest, manifest_path};
use twitch::launch::{direct_launch, indirect_launch, protocol_url, resolve};
use twitch::twitch_game::{find_install, manifest_directories};
use twitch::{Fuel, FuelCommand, Install, LaunchDescriptor, Manifest, Product, TwitchDb, TwitchGame};

fn product(asin: &str, title: &str) -> Product {
    Product {
        id: format!("id-{}", asin),
        date_time: "2019-01-01".to_string(),
        background: String::new(),
        background2: String::new(),
        is_developer: 0,
        product_asin: asin.to_string(),
        product_asin_version: "1".to_string(),
        product_description: None,
        product_domain: "games".to_string(),
        product_icon_url: format!("https://images.example/{}/icon.png", asin),
        product_id_str: asin.to_string(),
        product_line: "twitch".to_string(),
        product_publisher: "publisher".to_string(),
        product_sku: "sku".to_string(),
        product_title: title.to_string(),
        screenshots_json: "[]".to_string(),
        state: "New".to_string(),
        videos_json: "[]".to_string(),
    }
}

fn install(asin: &str, directory: &str, installed: isize) -> Install {
    Install {
        id: format!("install-{}", asin),
        install_date: "2019-01-02".to_string(),
        install_directory: directory.to_string(),
        install_version: None,
        install_version_name: None,
        installed,
        last_known_latest_version: "1".to_string(),
        last_known_latest_version_timestamp: "0".to_string(),
        last_updated: "2019-01-03".to_string(),
        last_played: "2019-01-04".to_string(),
        product_asin: asin.to_string(),
        product_title: "title".to_string(),
    }
}

fn command(command: &str) -> FuelCommand {
    FuelCommand {
        working_subdir_override: None,
        command: command.to_string(),
        args: None,
        auth_scopes: None,
        client_id: None,
    }
}

fn manifest(directory: &str, main: FuelCommand) -> Manifest {
    Manifest {
        install_directory: directory.to_string(),
        fuel: Fuel { schema_version: "2".to_string(), post_install: None, main },
    }
}

#[test]
fn join_with_exactly_one_install_is_installed() {
    let db = TwitchDb {
        products: vec![product("K1", "Alpha")],
        installs: vec![install("K0", "/games/Other", 1), install("K1", "/games/Alpha", 1)],
    };
    let games = TwitchGame::from_db(&db, &vec![]);
    assert_eq!(games.len(), 1);
    assert_eq!(games[0].asin, "K1");
    assert_eq!(games[0].title, "Alpha");
    assert_eq!(games[0].image_url, "https://images.example/K1/icon.png");
    assert!(games[0].installed);
    assert_eq!(games[0].install_directory, Some("/games/Alpha".to_string()));
}

#[test]
fn join_with_no_install_is_not_installed() {
    let db = TwitchDb {
        products: vec![product("K1", "Alpha")],
        installs: vec![install("K0", "/games/Other", 1)],
    };
    let games = TwitchGame::from_db(&db, &vec![manifest("/games/Other", command("o.exe"))]);
    assert!(!games[0].installed);
    assert_eq!(games[0].install_directory, None);
    assert_eq!(games[0].command, None);
    assert_eq!(games[0].launch_url, None);
}

#[test]
fn join_with_several_installs_is_not_installed() {
    let db = TwitchDb {
        products: vec![product("K1", "Alpha")],
        installs: vec![install("K1", "/games/A1", 1), install("K1", "/games/A2", 1)],
    };
    let manifests = vec![manifest("/games/A1", command("a.exe")), manifest("/games/A2", command("a.exe"))];
    let games = TwitchGame::from_db(&db, &manifests);
    assert!(!games[0].installed);
    assert_eq!(games[0].install_directory, None);
    assert_eq!(games[0].command, None);
    assert_eq!(games[0].args, None);
    assert_eq!(games[0].launch_url, None);
}

#[test]
fn join_with_one_install_that_is_not_flagged_keeps_the_directory() {
    let db = TwitchDb {
        products: vec![product("K1", "Alpha")],
        installs: vec![install("K1", "/games/Alpha", 0)],
    };
    let games = TwitchGame::from_db(&db, &vec![manifest("/games/Alpha", command("a.exe"))]);
    assert!(!games[0].installed);
    assert_eq!(games[0].install_directory, Some("/games/Alpha".to_string()));
    assert_eq!(games[0].command, None);
    assert_eq!(games[0].launch_url, None);
}

#[test]
fn join_treats_only_the_flag_one_as_installed() {
    let db = TwitchDb {
        products: vec![product("K1", "Alpha")],
        installs: vec![install("K1", "/games/Alpha", 2)],
    };
    let games = TwitchGame::from_db(&db, &vec![]);
    assert!(!games[0].installed);
}

#[test]
fn find_install_tells_one_from_none_and_several() {
    let installs = vec![
        install("A", "/a", 1),
        install("B", "/b1", 1),
        install("C", "/c", 1),
        install("B", "/b2", 1),
    ];
    assert_eq!(find_install(&installs, &"A".to_string()), Some(0));
    assert_eq!(find_install(&installs, &"C".to_string()), Some(2));
    assert_eq!(find_install(&installs, &"B".to_string()), None);
    assert_eq!(find_install(&installs, &"D".to_string()), None);
    assert_eq!(find_install(&vec![], &"A".to_string()), None);
}

#[test]
fn build_keeps_the_order_of_the_products() {
    let db = TwitchDb {
        products: vec![product("K2", "Zeta"), product("K1", "Alpha"), product("K3", "Mid")],
        installs: vec![],
    };
    let games = TwitchGame::from_db(&db, &vec![]);
    let titles: Vec<&str> = games.iter().map(|g| g.title.as_str()).collect();
    assert_eq!(titles, vec!["Zeta", "Alpha", "Mid"]);
}

#[test]
fn build_of_empty_registry_is_empty() {
    let db = TwitchDb { products: vec![], installs: vec![install("K1", "/games/Alpha", 1)] };
    assert!(TwitchGame::from_db(&db, &vec![]).is_empty());
}

#[test]
fn built_games_start_without_local_fields() {
    let db = TwitchDb { products: vec![product("K1", "Alpha")], installs: vec![] };
    let games = TwitchGame::from_db(&db, &vec![]);
    assert_eq!(games[0].kids, None);
    assert_eq!(games[0].players, None);
    assert_eq!(games[0].image_path, None);
}

#[test]
fn protocol_handoff_derives_the_url_from_the_directory_name() {
    let mut main = command("ignored.exe");
    main.client_id = Some("client".to_string());
    main.auth_scopes = Some(vec!["scope".to_string()]);
    let db = TwitchDb {
        products: vec![product("K1", "Alpha")],
        installs: vec![install("K1", "/library/ABC123", 1)],
    };
    let games = TwitchGame::from_db(&db, &vec![manifest("/library/ABC123", main)]);
    assert_eq!(games[0].launch_url, Some("twitch://fuel-launch/ABC123".to_string()));
    assert_eq!(games[0].command, None);
    assert_eq!(games[0].args, None);
    assert_eq!(games[0].working_subdir_override, None);
}

#[test]
fn direct_launch_composes_the_command_path() {
    let mut main = command("Foo.exe");
    main.working_subdir_override = Some("bin".to_string());
    main.args = Some(vec!["-w".to_string(), "--fast".to_string()]);
    let db = TwitchDb {
        products: vec![product("K1", "Foo")],
        installs: vec![install("K1", "/games/Foo", 1)],
    };
    let games = TwitchGame::from_db(&db, &vec![manifest("/games/Foo", main)]);
    assert_eq!(games[0].command, Some("/games/Foo/Foo.exe".to_string()));
    assert_eq!(games[0].args, Some(vec!["-w".to_string(), "--fast".to_string()]));
    assert_eq!(games[0].working_subdir_override, Some("bin".to_string()));
    assert_eq!(games[0].launch_url, None);
    let invocation = games[0].launch().unwrap();
    assert_eq!(invocation.program, "/games/Foo/Foo.exe");
    assert_eq!(invocation.working_directory, Some("/games/Foo/bin".to_string()));
    assert_eq!(invocation.args, vec!["-w".to_string(), "--fast".to_string()]);
}

#[test]
fn direct_launch_without_args_has_an_empty_list() {
    let db = TwitchDb {
        products: vec![product("K1", "Foo")],
        installs: vec![install("K1", "/games/Foo", 1)],
    };
    let games = TwitchGame::from_db(&db, &vec![manifest("/games/Foo", command("Foo.exe"))]);
    assert_eq!(games[0].args, Some(vec![]));
    assert_eq!(games[0].working_subdir_override, None);
}

#[test]
fn missing_manifest_leaves_one_title_unresolved_and_builds_the_rest() {
    let db = TwitchDb {
        products: vec![product("K1", "Alpha"), product("K2", "Beta")],
        installs: vec![install("K1", "/games/Alpha", 1), install("K2", "/games/Beta", 1)],
    };
    let games = TwitchGame::from_db(&db, &vec![manifest("/games/Beta", command("b.exe"))]);
    assert!(games[0].installed);
    assert_eq!(games[0].install_directory, Some("/games/Alpha".to_string()));
    assert_eq!(games[0].command, None);
    assert_eq!(games[0].launch_url, None);
    assert_eq!(games[1].command, Some("/games/Beta/b.exe".to_string()));
}

#[test]
fn built_games_never_hold_both_command_and_url() {
    let mut handoff = command("x.exe");
    handoff.client_id = Some("client".to_string());
    let db = TwitchDb {
        products: vec![product("K1", "A"), product("K2", "B"), product("K3", "C"), product("K4", "D")],
        installs: vec![
            install("K1", "/games/A", 1),
            install("K2", "/games/B", 1),
            install("K3", "/games/C", 0),
        ],
    };
    let manifests = vec![
        manifest("/games/A", command("a.exe")),
        manifest("/games/B", handoff),
        manifest("/games/C", command("c.exe")),
    ];
    let games = TwitchGame::from_db(&db, &manifests);
    assert_eq!(games.len(), 4);
    for game in &games {
        assert!(!(game.command.is_some() && game.launch_url.is_some()));
        if game.command.is_some() || game.launch_url.is_some() {
            assert!(game.installed);
        }
    }
    assert!(games[0].command.is_some());
    assert!(games[1].launch_url.is_some());
    assert!(games[2].command.is_none() && games[2].launch_url.is_none());
    assert!(games[3].command.is_none() && games[3].launch_url.is_none());
}

#[test]
fn first_manifest_of_a_directory_counts() {
    let manifests = vec![
        manifest("/games/A", command("first.exe")),
        manifest("/games/B", command("b.exe")),
        manifest("/games/A", command("second.exe")),
    ];
    assert_eq!(find_manifest(&manifests, &"/games/A".to_string()), Some(0));
    assert_eq!(find_manifest(&manifests, &"/games/B".to_string()), Some(1));
    assert_eq!(find_manifest(&manifests, &"/games/C".to_string()), None);
    let db = TwitchDb {
        products: vec![product("K1", "A")],
        installs: vec![install("K1", "/games/A", 1)],
    };
    let games = TwitchGame::from_db(&db, &manifests);
    assert_eq!(games[0].command, Some("/games/A/first.exe".to_string()));
}

#[test]
fn manifest_directories_are_those_of_the_installed_titles() {
    let db = TwitchDb {
        products: vec![product("K1", "A"), product("K2", "B"), product("K3", "C"), product("K4", "D")],
        installs: vec![
            install("K3", "/games/C", 1),
            install("K1", "/games/A", 1),
            install("K2", "/games/B", 0),
            install("K4", "/games/D1", 1),
            install("K4", "/games/D2", 1),
        ],
    };
    assert_eq!(manifest_directories(&db), vec!["/games/A".to_string(), "/games/C".to_string()]);
}

#[test]
fn manifest_path_is_fuel_json_in_the_directory() {
    assert_eq!(manifest_path("/games/Foo"), "/games/Foo/fuel.json");
}

#[test]
fn resolve_picks_the_protocol_when_a_client_id_is_present() {
    let mut main = command("Foo.exe");
    main.client_id = Some("abc".to_string());
    let fuel = Fuel { schema_version: "2".to_string(), post_install: None, main };
    assert_eq!(
        resolve("/games/ABC123", &fuel),
        LaunchDescriptor::Indirect { launch_url: "twitch://fuel-launch/ABC123".to_string() }
    );
    assert_eq!(resolve("/", &fuel), LaunchDescriptor::Unresolved);
}

#[test]
fn resolve_picks_the_command_without_a_client_id() {
    let fuel = Fuel {
        schema_version: "2".to_string(),
        post_install: Some(vec![command("setup.exe")]),
        main: command("bin/Foo.exe"),
    };
    assert_eq!(
        resolve("/games/Foo", &fuel),
        LaunchDescriptor::Direct {
            command: "/games/Foo/bin/Foo.exe".to_string(),
            args: vec![],
            working_subdir_override: None,
        }
    );
}

#[test]
fn launch_descriptors_from_given_parts() {
    assert_eq!(protocol_url("ABC123"), "twitch://fuel-launch/ABC123");
    assert_eq!(protocol_url(""), "twitch://fuel-launch/");
    assert_eq!(
        indirect_launch(Some("G1".to_string())),
        LaunchDescriptor::Indirect { launch_url: "twitch://fuel-launch/G1".to_string() }
    );
    assert_eq!(indirect_launch(None), LaunchDescriptor::Unresolved);
    let mut main = command("Foo.exe");
    main.args = Some(vec!["a".to_string()]);
    main.working_subdir_override = Some("bin".to_string());
    assert_eq!(
        direct_launch(&main, "C:\\Games\\Foo\\Foo.exe".to_string()),
        LaunchDescriptor::Direct {
            command: "C:\\Games\\Foo\\Foo.exe".to_string(),
            args: vec!["a".to_string()],
            working_subdir_override: Some("bin".to_string()),
        }
    );
}

#[test]
fn new_game_takes_identity_from_the_product() {
    let p = product("K9", "Nine");
    let i = install("K9", "/games/Nine", 1);
    let game = TwitchGame::new(&p, Some(&i), LaunchDescriptor::Unresolved);
    assert_eq!(game.asin, "K9");
    assert_eq!(game.title, "Nine");
    assert!(game.installed);
    assert_eq!(game.install_directory, Some("/games/Nine".to_string()));
    let bare = TwitchGame::new(&p, None, LaunchDescriptor::Unresolved);
    assert!(!bare.installed);
    assert_eq!(bare.install_directory, None);
}

#[test]
fn new_game_of_a_title_that_is_not_installed_is_unresolved() {
    let p = product("K9", "Nine");
    let i = install("K9", "/games/Nine", 0);
    let direct = LaunchDescriptor::Direct {
        command: "/games/Nine/n.exe".to_string(),
        args: vec!["-a".to_string()],
        working_subdir_override: Some("bin".to_string()),
    };
    let game = TwitchGame::new(&p, Some(&i), direct);
    assert!(!game.installed);
    assert_eq!(game.install_directory, Some("/games/Nine".to_string()));
    assert_eq!(game.command, None);
    assert_eq!(game.args, None);
    assert_eq!(game.working_subdir_override, None);
    let url = LaunchDescriptor::Indirect { launch_url: "twitch://fuel-launch/Nine".to_string() };
    assert_eq!(TwitchGame::new(&p, None, url).launch_url, None);
}

#[test]
fn new_game_of_an_installed_title_carries_the_descriptor() {
    let p = product("K9", "Nine");
    let i = install("K9", "/games/Nine", 1);
    let direct = LaunchDescriptor::Direct {
        command: "/games/Nine/n.exe".to_string(),
        args: vec!["-a".to_string()],
        working_subdir_override: Some("bin".to_string()),
    };
    let game = TwitchGame::new(&p, Some(&i), direct);
    assert_eq!(game.command, Some("/games/Nine/n.exe".to_string()));
    assert_eq!(game.args, Some(vec!["-a".to_string()]));
    assert_eq!(game.working_subdir_override, Some("bin".to_string()));
    assert_eq!(game.launch_url, None);
    let url = LaunchDescriptor::Indirect { launch_url: "twitch://fuel-launch/Nine".to_string() };
    let game = TwitchGame::new(&p, Some(&i), url);
    assert_eq!(game.launch_url, Some("twitch://fuel-launch/Nine".to_string()));
    assert_eq!(game.command, None);
}
