use xpm::category::{arrange_category, sort_by_display_name};
use xpm::names::{humanize_package_name, TextMap};
use xpm::package::{Package, PackageBackend, PackageStatus, SearchResult, UpdateInfo, Version};
use xpm::ui::{
    count_updates, dedup_by_name, flatpak_fallback_name, flatpak_to_ui, is_arch_package,
    local_package_info, make_row, make_stats, package_to_ui, search_to_ui, update_to_ui, Counts,
    PackageData,
};

fn names(pairs: &[(&str, &str)]) -> TextMap<String> {
    let mut map = TextMap::new();
    for (key, value) in pairs {
        map.insert(String::from(*key), String::from(*value));
    }
    map
}

#[test]
fn a_table_keeps_one_value_for_each_key() {
    let mut map: TextMap<u32> = TextMap::new();
    assert_eq!(map.get("a"), None);
    assert!(!map.contains_key("a"));
    map.insert(String::from("a"), 1);
    map.insert(String::from("b"), 2);
    assert_eq!(map.get("a"), Some(&1));
    assert_eq!(map.get("b"), Some(&2));
    assert_eq!(map.get("A"), None);
    map.insert(String::from("a"), 3);
    assert_eq!(map.get("a"), Some(&3));
    assert_eq!(map.get("b"), Some(&2));
    map.insert_if_absent(String::from("a"), 4);
    map.insert_if_absent(String::from("c"), 5);
    assert_eq!(map.get("a"), Some(&3));
    assert_eq!(map.get("c"), Some(&5));
    assert!(map.contains_key("c"));
    assert_eq!(map.get(""), None);
}

#[test]
fn a_table_of_texts() {
    let mut map: TextMap<String> = TextMap::new();
    map.put(String::from("k"), String::from("first"));
    map.put_if_absent(String::from("k"), String::from("second"));
    map.put_if_absent(String::from("l"), String::from("third"));
    assert_eq!(map.text_at("k").map(String::as_str), Some("first"));
    assert_eq!(map.text_at("l").map(String::as_str), Some("third"));
    map.put(String::from("k"), String::from("fourth"));
    assert_eq!(map.text_at("k").map(String::as_str), Some("fourth"));
    assert_eq!(map.text_at("m"), None);
    let mut pairs: TextMap<(String, String)> = TextMap::new();
    pairs.put_pair(String::from("id"), String::from("Name"), String::from("Summary"));
    let pair = pairs.pair_at("id").unwrap();
    assert_eq!((pair.0.as_str(), pair.1.as_str()), ("Name", "Summary"));
    assert!(pairs.pair_at("ID").is_none());
}

#[test]
fn humanize_prefers_the_desktop_name() {
    let map = names(&[("firefox", "Firefox Web Browser"), ("gimp", "GNU Image Manipulation Program")]);
    assert_eq!(humanize_package_name("firefox", &map), "Firefox Web Browser");
    assert_eq!(humanize_package_name("Firefox", &map), "Firefox Web Browser");
    assert_eq!(humanize_package_name("GIMP", &map), "GNU Image Manipulation Program");
}

#[test]
fn humanize_falls_back_to_title_case() {
    let map = names(&[]);
    assert_eq!(humanize_package_name("linux-firmware", &map), "Linux Firmware");
    assert_eq!(humanize_package_name("python_requests-oauth", &map), "Python Requests Oauth");
    assert_eq!(humanize_package_name("vim", &map), "Vim");
    assert_eq!(humanize_package_name("", &map), "");
    assert_eq!(humanize_package_name("a--b", &map), "A  B");
    assert_eq!(humanize_package_name("-x-", &map), " X ");
    assert_eq!(humanize_package_name("lib32-gtk3", &map), "Lib32 Gtk3");
    assert_eq!(humanize_package_name("KDE-plasma", &map), "KDE Plasma");
    assert_eq!(humanize_package_name("élan-ßtraße", &map), "Élan SStraße");
}

#[test]
fn arch_package_names() {
    assert!(is_arch_package("/tmp/foo-1.0-1-x86_64.pkg.tar.zst"));
    assert!(is_arch_package("foo.pkg.tar.xz"));
    assert!(is_arch_package("foo.pkg.tar.gz"));
    assert!(is_arch_package("foo.pkg.tar"));
    assert!(is_arch_package(".pkg.tar"));
    assert!(!is_arch_package("foo.tar.zst"));
    assert!(!is_arch_package("foo.pkg.tar.bz2"));
    assert!(!is_arch_package("pkg.tar"));
    assert!(!is_arch_package(""));
    assert!(!is_arch_package("foo.pkg.tar.zst.sig"));
}

#[test]
fn a_local_package_file_gives_a_row() {
    let row = local_package_info("my-app-1.2.3-4-x86_64.pkg.tar.zst", Some(1536)).unwrap();
    assert_eq!(row.name, "my-app");
    assert_eq!(row.display_name, "my-app");
    assert_eq!(row.version, "1.2.3-4");
    assert_eq!(row.description, "Local package: my-app-1.2.3-4-x86_64.pkg.tar.zst");
    assert_eq!(row.repository, "local");
    assert_eq!(row.backend, 2);
    assert!(!row.installed);
    assert!(!row.has_update);
    assert_eq!(row.installed_size, "1.5 KB");
    assert_eq!(row.icon_name, "package");
    assert_eq!(row.licenses, "");
    assert_eq!(row.url, "");
}

#[test]
fn local_package_names_with_few_hyphens() {
    let two = local_package_info("a-b-c.pkg.tar.xz", None).unwrap();
    assert_eq!(two.name, "");
    assert_eq!(two.version, "a-b");
    assert_eq!(two.installed_size, "Unknown");
    let one = local_package_info("a-b.pkg.tar.gz", None).unwrap();
    assert_eq!(one.name, "a-b");
    assert_eq!(one.version, "unknown");
    let none = local_package_info("plain.pkg.tar", None).unwrap();
    assert_eq!(none.name, "plain");
    assert_eq!(none.version, "unknown");
    let three = local_package_info("n-1-2-any.pkg.tar.zst", None).unwrap();
    assert_eq!(three.name, "n");
    assert_eq!(three.version, "1-2");
    let empty = local_package_info("---.pkg.tar", None).unwrap();
    assert_eq!(empty.name, "");
    assert_eq!(empty.version, "-");
    assert!(local_package_info("notes.txt", Some(1)).is_none());
    assert!(local_package_info("", None).is_none());
}

#[test]
fn local_package_names_agree_with_rsplitn() {
    for base in ["a", "a-b", "a-b-c", "a-b-c-d", "a-b-c-d-e", "-", "--", "---", "----", "x--y---z", ""] {
        let file = format!("{}.pkg.tar.zst", base);
        let parts: Vec<&str> = base.rsplitn(4, '-').collect();
        let (name, version) = if parts.len() >= 3 {
            (parts[3..].join("-"), format!("{}-{}", parts[2], parts[1]))
        } else {
            (base.to_string(), "unknown".to_string())
        };
        let row = local_package_info(&file, None).unwrap();
        assert_eq!(row.name, name, "{:?}", base);
        assert_eq!(row.version, version, "{:?}", base);
    }
}

fn package(name: &str, backend: PackageBackend, status: PackageStatus) -> Package {
    Package::new(name, Version::new("1:2.0-1"), "Described", backend, status, "extra")
}

#[test]
fn a_package_gives_a_row() {
    let map = names(&[("vlc", "VLC media player")]);
    let row = package_to_ui(&package("vlc", PackageBackend::Pacman, PackageStatus::Orphan), true, &map);
    assert_eq!(row.name, "vlc");
    assert_eq!(row.display_name, "VLC media player");
    assert_eq!(row.version, "1:2.0-1");
    assert_eq!(row.description, "Described");
    assert_eq!(row.repository, "extra");
    assert_eq!(row.backend, 0);
    assert!(row.installed);
    assert!(row.has_update);
    assert_eq!(row.installed_size, "");
    let other = package_to_ui(&package("some-tool", PackageBackend::Flatpak, PackageStatus::Available), false, &map);
    assert_eq!(other.display_name, "Some Tool");
    assert_eq!(other.backend, 1);
    assert!(!other.installed);
    assert!(!other.has_update);
    assert!(package_to_ui(&package("x", PackageBackend::Pacman, PackageStatus::Installed), false, &map).installed);
    assert!(!package_to_ui(&package("x", PackageBackend::Pacman, PackageStatus::Upgradable), false, &map).installed);
}

#[test]
fn an_update_gives_a_row() {
    let update = UpdateInfo {
        name: String::from("linux"),
        current_version: Version::new("6.1-1"),
        new_version: Version::new("6.2-1"),
        backend: PackageBackend::Pacman,
        repository: String::from("core"),
        download_size: 150 * 1_048_576,
    };
    let row = update_to_ui(&update);
    assert_eq!(row.name, "linux");
    assert_eq!(row.display_name, "linux");
    assert_eq!(row.version, "6.1-1 → 6.2-1");
    assert_eq!(row.description, "6.1-1 → 6.2-1");
    assert_eq!(row.repository, "core");
    assert_eq!(row.backend, 0);
    assert!(row.installed);
    assert!(row.has_update);
    assert_eq!(row.installed_size, "150.0 MB");
}

#[test]
fn flatpak_names_from_identifiers() {
    assert_eq!(flatpak_fallback_name("org.mozilla.firefox"), "firefox");
    assert_eq!(flatpak_fallback_name("com.some_vendor.My-App_Name"), "My App Name");
    assert_eq!(flatpak_fallback_name("plain"), "plain");
    assert_eq!(flatpak_fallback_name("trailing."), "");
    assert_eq!(flatpak_fallback_name(""), "");
}

#[test]
fn a_flatpak_gives_a_row() {
    let mut map: TextMap<(String, String)> = TextMap::new();
    map.put_pair(String::from("org.gimp.gimp"), String::from("GIMP"), String::from("Image editor"));
    let known = flatpak_to_ui(&package("org.gimp.GIMP", PackageBackend::Flatpak, PackageStatus::Installed), true, &map);
    assert_eq!(known.name, "org.gimp.GIMP");
    assert_eq!(known.display_name, "GIMP");
    assert_eq!(known.description, "Image editor");
    assert_eq!(known.version, "1:2.0-1");
    assert_eq!(known.backend, 1);
    assert!(known.installed);
    assert!(known.has_update);
    let unknown = flatpak_to_ui(&package("org.kde.krita_next", PackageBackend::Flatpak, PackageStatus::Available), false, &map);
    assert_eq!(unknown.display_name, "krita next");
    assert_eq!(unknown.description, "");
    assert!(!unknown.installed);
}

fn result(name: &str, installed: bool) -> SearchResult {
    SearchResult {
        name: String::from(name),
        version: Version::new("1.0-1"),
        description: format!("about {}", name),
        backend: PackageBackend::Pacman,
        repository: String::from("extra"),
        installed,
        installed_version: None,
    }
}

#[test]
fn search_results_give_rows_pacman_first() {
    let map = names(&[("htop", "Htop Process Viewer")]);
    let rows = search_to_ui(&vec![result("htop", true), result("b-top", false)], &vec![result("org.x.Top", true)], &map);
    assert_eq!(rows.len(), 3);
    assert_eq!(rows[0].name, "htop");
    assert_eq!(rows[0].display_name, "Htop Process Viewer");
    assert_eq!(rows[0].backend, 0);
    assert!(rows[0].installed);
    assert!(!rows[0].has_update);
    assert_eq!(rows[0].description, "about htop");
    assert_eq!(rows[1].display_name, "B Top");
    assert_eq!(rows[2].name, "org.x.Top");
    assert_eq!(rows[2].display_name, "org.x.Top");
    assert_eq!(rows[2].backend, 1);
}

#[test]
fn search_rows_stop_at_a_hundred() {
    let map = names(&[]);
    let many: Vec<SearchResult> = (0..150).map(|i| result(&format!("p{}", i), false)).collect();
    let few: Vec<SearchResult> = (0..30).map(|i| result(&format!("f{}", i), false)).collect();
    let rows = search_to_ui(&many, &few, &map);
    assert_eq!(rows.len(), 100);
    assert_eq!(rows[99].name, "p99");
    let rows = search_to_ui(&few, &many, &map);
    assert_eq!(rows.len(), 100);
    assert_eq!(rows[29].name, "f29");
    assert_eq!(rows[30].name, "p0");
    assert_eq!(rows[99].name, "p69");
    assert_eq!(rows[30].backend, 1);
    let exact: Vec<SearchResult> = (0..100).map(|i| result(&format!("e{}", i), false)).collect();
    assert_eq!(search_to_ui(&exact, &few, &map).len(), 100);
    assert_eq!(search_to_ui(&few, &few, &map).len(), 60);
    assert!(search_to_ui(&Vec::new(), &Vec::new(), &map).is_empty());
}

#[test]
fn the_front_page_numbers() {
    let stats = make_stats(Counts {
        pacman: 1200,
        flatpak: 35,
        orphans: 4,
        pacman_updates: 10,
        flatpak_updates: 2,
        plasmoid_updates: 1,
        firmware_updates: 3,
        cache_bytes: 3 * 1_073_741_824,
    });
    assert_eq!(stats.pacman_count, 1200);
    assert_eq!(stats.flatpak_count, 35);
    assert_eq!(stats.orphan_count, 4);
    assert_eq!(stats.update_count, 16);
    assert_eq!(stats.cache_size, "3.0 GB");
}

fn row(name: &str, display: &str, has_update: bool) -> PackageData {
    make_row(name, display, "", "", "native", 0, true, has_update)
}

fn shown(rows: &Vec<PackageData>) -> Vec<(String, String)> {
    rows.iter().map(|r| (r.name.clone(), r.display_name.clone())).collect()
}

#[test]
fn rows_with_updates_are_counted() {
    let rows = vec![row("a", "A", true), row("b", "B", false), row("c", "C", true)];
    assert_eq!(count_updates(&rows), 2);
    assert_eq!(count_updates(&Vec::new()), 0);
}

#[test]
fn repeated_names_in_a_run_are_removed() {
    let rows = vec![row("a", "1", false), row("a", "2", false), row("b", "3", false), row("a", "4", false), row("a", "5", false)];
    let kept = dedup_by_name(&rows);
    assert_eq!(
        shown(&kept),
        vec![
            (String::from("a"), String::from("1")),
            (String::from("b"), String::from("3")),
            (String::from("a"), String::from("4")),
        ]
    );
    assert!(dedup_by_name(&Vec::new()).is_empty());
}

#[test]
fn sorting_agrees_with_the_stable_sort_of_std() {
    let displays = ["beta", "Alpha", "alpha", "gamma", "Beta", "", "ALPHA", "delta", "Éclair", "eclair", "zeta", "a"];
    let rows: Vec<PackageData> =
        displays.iter().enumerate().map(|(i, d)| row(&format!("n{}", i), d, false)).collect();
    let mut expected = rows.clone();
    expected.sort_by(|a, b| a.display_name.to_lowercase().cmp(&b.display_name.to_lowercase()));
    assert_eq!(shown(&sort_by_display_name(&rows)), shown(&expected));
}

#[test]
fn a_category_is_sorted_and_freed_of_duplicates() {
    let rows = vec![
        row("firefox", "Firefox", false),
        row("org.mozilla.firefox", "firefox", false),
        row("firefox", "firefox", false),
        row("abiword", "AbiWord", false),
        row("firefox", "Firefox", false),
    ];
    let mut expected = rows.clone();
    expected.sort_by(|a, b| a.display_name.to_lowercase().cmp(&b.display_name.to_lowercase()));
    expected.dedup_by(|a, b| a.name == b.name);
    let arranged = arrange_category(&rows);
    assert_eq!(shown(&arranged), shown(&expected));
    assert_eq!(arranged[0].name, "abiword");
    assert_eq!(arranged.len(), 4);
}
