use twitch::image::{file_name_of, image_file_name, UrlPath};
use twitch::invocation::{direct_invocation, protocol_invocation, working_directory};
use twitch::listing::{find_by_title, launcher_games, select_by_installed};
use twitch::{Invocation, TwitchDb, TwitchError, TwitchGame};

fn game(asin: &str, title: &str) -> TwitchGame {
    TwitchGame {
        asin: asin.to_string(),
        title: title.to_string(),
        image_url: format!("https://images.example/art/{}.png", asin),
        installed: false,
        install_directory: None,
        working_subdir_override: None,
        command: None,
        args: None,
        launch_url: None,
        image_path: None,
        kids: None,
        players: None,
    }
}

#[test]
fn unresolved_launch_fails_closed() {
    let g = game("K", "Nothing");
    assert_eq!(g.launch(), Err(TwitchError::MissingLaunchInformation));
    let mut installed = game("K", "Installed");
    installed.installed = true;
    installed.install_directory = Some("/games/K".to_string());
    assert_eq!(installed.launch(), Err(TwitchError::MissingLaunchInformation));
}

#[test]
fn command_without_install_directory_cannot_be_launched() {
    let mut g = game("K", "Odd");
    g.command = Some("/games/K/k.exe".to_string());
    assert_eq!(g.launch(), Err(TwitchError::MissingLaunchInformation));
}

#[test]
fn direct_launch_runs_in_the_install_directory() {
    let mut g = game("K", "Direct");
    g.installed = true;
    g.install_directory = Some("/games/Foo".to_string());
    g.command = Some("/games/Foo/Foo.exe".to_string());
    g.args = Some(vec!["--window".to_string()]);
    assert_eq!(
        g.launch(),
        Ok(Invocation {
            program: "/games/Foo/Foo.exe".to_string(),
            args: vec!["--window".to_string()],
            working_directory: Some("/games/Foo".to_string()),
        })
    );
}

#[test]
fn direct_launch_honours_the_working_directory_override() {
    let mut g = game("K", "Direct");
    g.install_directory = Some("/games/Foo".to_string());
    g.command = Some("/games/Foo/Foo.exe".to_string());
    g.working_subdir_override = Some("bin".to_string());
    let invocation = g.launch().unwrap();
    assert_eq!(invocation.program, "/games/Foo/Foo.exe");
    assert_eq!(invocation.args, Vec::<String>::new());
    assert_eq!(invocation.working_directory, Some("/games/Foo/bin".to_string()));
}

#[test]
fn indirect_launch_hands_the_url_to_the_shell() {
    let mut g = game("K", "Indirect");
    g.launch_url = Some("twitch://fuel-launch/ABC123".to_string());
    assert_eq!(
        g.launch(),
        Ok(Invocation {
            program: "cmd".to_string(),
            args: vec!["/C".to_string(), "start".to_string(), "twitch://fuel-launch/ABC123".to_string()],
            working_directory: None,
        })
    );
}

#[test]
fn command_goes_before_url() {
    let mut g = game("K", "Both");
    g.install_directory = Some("/games/Foo".to_string());
    g.command = Some("/games/Foo/Foo.exe".to_string());
    g.launch_url = Some("twitch://fuel-launch/Foo".to_string());
    assert_eq!(g.launch().unwrap().program, "/games/Foo/Foo.exe");
}

#[test]
fn invocations_from_given_parts() {
    assert_eq!(working_directory(&"/games/Foo".to_string(), &None), "/games/Foo");
    assert_eq!(working_directory(&"/games/Foo".to_string(), &Some("bin/x64".to_string())), "/games/Foo/bin/x64");
    assert_eq!(
        direct_invocation(&"run.exe".to_string(), &None, "/wd".to_string()),
        Invocation { program: "run.exe".to_string(), args: vec![], working_directory: Some("/wd".to_string()) }
    );
    assert_eq!(
        direct_invocation(&"run.exe".to_string(), &Some(vec!["a".to_string(), "b".to_string()]), "/wd".to_string()),
        Invocation {
            program: "run.exe".to_string(),
            args: vec!["a".to_string(), "b".to_string()],
            working_directory: Some("/wd".to_string()),
        }
    );
    assert_eq!(
        protocol_invocation(&"twitch://x".to_string()),
        Invocation {
            program: "cmd".to_string(),
            args: vec!["/C".to_string(), "start".to_string(), "twitch://x".to_string()],
            working_directory: None,
        }
    );
}

#[test]
fn error_messages() {
    assert_eq!(
        TwitchError::MissingLaunchInformation.message(),
        "Unable to launch: Missing launch_url or command"
    );
    assert_eq!(
        TwitchError::ProductInfoMissing { path: "/cfg/p.sqlite".to_string() }.message(),
        "Product info missing: /cfg/p.sqlite"
    );
    assert_eq!(
        TwitchError::InstallInfoMissing { path: "/data/i.sqlite".to_string() }.message(),
        "Install info missing: /data/i.sqlite"
    );
    assert_eq!(TwitchError::ImageUrlInvalid.message(), "Unable to parse url for image");
    assert_eq!(TwitchError::ImageUrlWithoutPath.message(), "Unable to get filename from image url");
    assert_eq!(
        TwitchError::CatalogUnreadable.message(),
        "Unable to read the game cache: run with --refresh to rebuild it"
    );
}

#[test]
fn registry_paths_and_missing_sources() {
    let products = TwitchDb::product_info_path("/home/u/.config");
    assert_eq!(products, "/home/u/.config/Twitch\\Games\\Sql\\GameProductInfo.sqlite");
    let installs = TwitchDb::install_info_path("/programdata");
    assert_eq!(installs, "/programdata/Twitch\\Games\\Sql\\GameInstallInfo.sqlite");
    assert_eq!(TwitchDb::cache_path("/home/u/.twitch"), "/home/u/.twitch/twitchdb.json");
    assert_eq!(TwitchDb::require_product_info("/p".to_string(), true), Ok("/p".to_string()));
    assert_eq!(
        TwitchDb::require_product_info("/p".to_string(), false),
        Err(TwitchError::ProductInfoMissing { path: "/p".to_string() })
    );
    assert_eq!(TwitchDb::require_install_info("/i".to_string(), true), Ok("/i".to_string()));
    assert_eq!(
        TwitchDb::require_install_info("/i".to_string(), false),
        Err(TwitchError::InstallInfoMissing { path: "/i".to_string() })
    );
}

#[test]
fn refresh_is_needed_on_request_or_without_snapshot() {
    assert!(TwitchDb::refresh_needed(true, true));
    assert!(TwitchDb::refresh_needed(true, false));
    assert!(TwitchDb::refresh_needed(false, false));
    assert!(!TwitchDb::refresh_needed(false, true));
}

#[test]
fn image_file_name_is_the_last_segment_of_the_url() {
    assert_eq!(image_file_name("https://images.example/art/box/icon.png"), Ok("icon.png".to_string()));
    assert_eq!(image_file_name("https://images.example/a%20b.png?x=1#frag"), Ok("a%20b.png".to_string()));
    assert_eq!(image_file_name("https://images.example"), Ok(String::new()));
    assert_eq!(image_file_name("https://images.example/dir/"), Ok(String::new()));
}

#[test]
fn image_file_name_of_a_text_that_is_no_url() {
    assert_eq!(image_file_name("not a url"), Err(TwitchError::ImageUrlInvalid));
    assert_eq!(image_file_name(""), Err(TwitchError::ImageUrlInvalid));
}

#[test]
fn image_file_name_of_a_url_without_path() {
    assert_eq!(image_file_name("data:text/plain,Hello"), Err(TwitchError::ImageUrlWithoutPath));
}

#[test]
fn file_name_of_given_paths() {
    assert_eq!(file_name_of(UrlPath::Invalid), Err(TwitchError::ImageUrlInvalid));
    assert_eq!(file_name_of(UrlPath::Opaque), Err(TwitchError::ImageUrlWithoutPath));
    assert_eq!(file_name_of(UrlPath::Segments(vec![])), Err(TwitchError::ImageUrlWithoutPath));
    assert_eq!(
        file_name_of(UrlPath::Segments(vec!["a".to_string(), "b.png".to_string()])),
        Ok("b.png".to_string())
    );
}

#[test]
fn image_file_is_kept_in_the_image_folder() {
    let g = game("K7", "Seven");
    assert_eq!(g.image_file("/cache/images"), Ok("/cache/images/K7.png".to_string()));
    let mut broken = game("K8", "Eight");
    broken.image_url = "::".to_string();
    assert_eq!(broken.image_file("/cache/images"), Err(TwitchError::ImageUrlInvalid));
}

#[test]
fn listing_selects_by_install_state() {
    let mut a = game("K1", "A");
    a.installed = true;
    let b = game("K2", "B");
    let mut c = game("K3", "C");
    c.installed = true;
    let games = vec![a, b, c];
    let yes: Vec<String> = select_by_installed(&games, Some(true)).into_iter().map(|g| g.title).collect();
    assert_eq!(yes, vec!["A".to_string(), "C".to_string()]);
    let no: Vec<String> = select_by_installed(&games, Some(false)).into_iter().map(|g| g.title).collect();
    assert_eq!(no, vec!["B".to_string()]);
    assert_eq!(select_by_installed(&games, None), games);
}

#[test]
fn launcher_shows_installed_games_for_children() {
    let mut a = game("K1", "A");
    a.installed = true;
    a.kids = Some(true);
    let mut b = game("K2", "B");
    b.installed = true;
    b.kids = Some(false);
    let mut c = game("K3", "C");
    c.kids = Some(true);
    let mut d = game("K4", "D");
    d.installed = true;
    let mut e = game("K5", "E");
    e.installed = true;
    e.kids = Some(true);
    let shown: Vec<String> = launcher_games(&vec![a, b, c, d, e]).into_iter().map(|g| g.title).collect();
    assert_eq!(shown, vec!["A".to_string(), "E".to_string()]);
}

#[test]
fn the_game_to_launch_is_the_first_of_its_title() {
    let games = vec![game("K1", "A"), game("K2", "B"), game("K3", "B")];
    assert_eq!(find_by_title(&games, &"B".to_string()), Some(1));
    assert_eq!(find_by_title(&games, &"A".to_string()), Some(0));
    assert_eq!(find_by_title(&games, &"b".to_string()), None);
    assert_eq!(find_by_title(&vec![], &"A".to_string()), None);
}
