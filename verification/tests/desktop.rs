use xpm::appstream::{extract_first_name, extract_tag_content, parse_appstream_names, parse_appstream_xml};
use xpm::desktop::{add_desktop_names, parse_desktop_file, parse_plasmoid_desktop};
use xpm::names::TextMap;
use xpm::repos::{add_owner_names, load_repo_packages, parse_pacman_repos, parse_updates};
use xpm::package::{PackageBackend, Version};
use xpm::ui::PackageData;

const ENTRY: &str = "[Desktop Entry]\nName=Files\nName[de]=Dateien\nGenericName=File Manager\nComment=Browse the file system\nComment[de]=Dateisystem\nExec=/usr/bin/nautilus --new-window %U\nCategories=GNOME;GTK;Utility;Core;\nType=Application\n";

#[test]
fn a_desktop_file_gives_a_row_for_its_category() {
    let row = parse_desktop_file(ENTRY, "/usr/share/applications/org.gnome.Nautilus.desktop", "Utility").unwrap();
    assert_eq!(row.name, "org.gnome.Nautilus");
    assert_eq!(row.display_name, "Files");
    assert_eq!(row.version, "");
    assert_eq!(row.description, "Browse the file system");
    assert_eq!(row.repository, "native");
    assert_eq!(row.backend, 0);
    assert!(row.installed);
    assert!(!row.has_update);
    assert!(parse_desktop_file(ENTRY, "/usr/share/applications/x.desktop", "Game").is_none());
    assert!(parse_desktop_file(ENTRY, "/usr/share/applications/x.desktop", "Util").is_none());
    assert!(parse_desktop_file(ENTRY, "/usr/share/applications/x.desktop", "").is_some());
}

#[test]
fn a_desktop_file_under_flatpak_counts_as_flathub() {
    let path = "/var/lib/flatpak/exports/share/applications/org.app.desktop";
    let row = parse_desktop_file(ENTRY, path, "GTK").unwrap();
    assert_eq!(row.name, "org.app");
    assert_eq!(row.repository, "flathub");
    assert_eq!(row.backend, 1);
}

#[test]
fn hidden_and_nameless_entries_give_no_row() {
    let path = "/usr/share/applications/x.desktop";
    assert!(parse_desktop_file("Name=X\nCategories=A;\nNoDisplay=true\n", path, "A").is_none());
    assert!(parse_desktop_file("Name=X\nCategories=A;\nHidden=true\n", path, "A").is_none());
    assert!(parse_desktop_file("Categories=A;\n", path, "A").is_none());
    assert!(parse_desktop_file("Name=\nCategories=A;\n", path, "A").is_none());
    assert!(parse_desktop_file("Name=X\n", path, "A").is_none());
    assert!(parse_desktop_file("Name=X\nCategories=A;\nNoDisplay=false\n", path, "A").is_some());
    assert!(parse_desktop_file("Name=X\nCategories=A;\nNoDisplay=trueish\n", path, "A").is_none());
    assert!(parse_desktop_file("", path, "").is_none());
    assert!(parse_desktop_file("Name=X\nCategories=A\n", "..", "A").is_none());
}

#[test]
fn the_description_is_the_comment_or_else_the_generic_name() {
    let path = "/usr/share/applications/x.desktop";
    let generic = parse_desktop_file("Name=X\nGenericName=Tool\nCategories=A\n", path, "A").unwrap();
    assert_eq!(generic.description, "Tool");
    let neither = parse_desktop_file("Name=X\nCategories=A\n", path, "A").unwrap();
    assert_eq!(neither.description, "");
    let later = parse_desktop_file("Name=X\nName=Y\nComment=one\nComment=two\nCategories=B\nCategories=A\n", path, "A").unwrap();
    assert_eq!(later.display_name, "Y");
    assert_eq!(later.description, "two");
    let bracket = parse_desktop_file("Name=X [beta]\nName=Plain\nCategories=A\r\n", path, "A").unwrap();
    assert_eq!(bracket.display_name, "Plain");
}

#[test]
fn a_widget_is_read_from_its_desktop_file() {
    let content = "[Desktop Entry]\nName=Clock\nName[fr]=Horloge\nComment=Tells the time\nX-KDE-PluginInfo-Name=org.kde.clock\nX-KDE-PluginInfo-Version=1.4\n";
    let info = parse_plasmoid_desktop(Some(content));
    assert_eq!(info.id, "org.kde.clock");
    assert_eq!(info.name, "Clock");
    assert_eq!(info.version, "1.4");
    assert_eq!(info.description, "Tells the time");
    for content in [None, Some(""), Some("nothing of use\n")] {
        let info = parse_plasmoid_desktop(content);
        assert_eq!(info.id, "");
        assert_eq!(info.name, "Unknown");
        assert_eq!(info.version, "unknown");
        assert_eq!(info.description, "");
    }
    let emptied = parse_plasmoid_desktop(Some("Name=\nX-KDE-PluginInfo-Version=\n"));
    assert_eq!(emptied.name, "");
    assert_eq!(emptied.version, "");
}

fn at(map: &TextMap<String>, key: &str) -> Option<String> {
    map.text_at(key).cloned()
}

#[test]
fn desktop_files_fill_the_table_of_names() {
    let mut map: TextMap<String> = TextMap::new();
    add_desktop_names(&mut map, ENTRY, "/usr/share/applications/org.gnome.Nautilus.desktop");
    assert_eq!(at(&map, "org.gnome.nautilus").as_deref(), Some("Files"));
    assert_eq!(at(&map, "nautilus").as_deref(), Some("Files"));
    assert_eq!(at(&map, "org.gnome.Nautilus"), None);
    add_desktop_names(&mut map, "Name=Other\nExec=Nautilus\n", "/x/Second.desktop");
    assert_eq!(at(&map, "nautilus").as_deref(), Some("Files"));
    assert_eq!(at(&map, "second").as_deref(), Some("Other"));
    add_desktop_names(&mut map, "Name=Third\nExec=env FOO=1 /opt/app/bin/run\n", "/x/second.desktop");
    assert_eq!(at(&map, "second").as_deref(), Some("Third"));
    assert_eq!(at(&map, "env").as_deref(), Some("Third"));
    assert_eq!(at(&map, "run"), None);
    add_desktop_names(&mut map, "Name=Path\nExec=/opt/app/bin/Start --now\n", "/x/p.desktop");
    assert_eq!(at(&map, "start").as_deref(), Some("Path"));
}

#[test]
fn entries_not_to_be_displayed_fill_nothing() {
    let mut map: TextMap<String> = TextMap::new();
    add_desktop_names(&mut map, "Name=Hidden\nExec=tool\nNoDisplay=true\n", "/x/hidden.desktop");
    add_desktop_names(&mut map, "Exec=tool\n", "/x/nameless.desktop");
    add_desktop_names(&mut map, "Name=Slash\nExec=/usr/bin/\n", "/x/slash.desktop");
    add_desktop_names(&mut map, "Name=Bare\nExec=\n", "/x/bare.desktop");
    assert_eq!(at(&map, "hidden"), None);
    assert_eq!(at(&map, "nameless"), None);
    assert_eq!(at(&map, "tool"), None);
    assert_eq!(at(&map, "slash").as_deref(), Some("Slash"));
    assert_eq!(at(&map, ""), None);
    assert_eq!(at(&map, "bare").as_deref(), Some("Bare"));
}

#[test]
fn owned_desktop_files_name_their_packages() {
    let mut map: TextMap<String> = TextMap::new();
    map.put(String::from("org.gnome.nautilus"), String::from("Files"));
    map.put(String::from("vlc"), String::from("VLC media player"));
    let listing = "nautilus /usr/bin/nautilus\nnautilus /usr/share/applications/org.gnome.Nautilus.desktop\nVLC-Git /usr/share/applications/vlc.desktop\nother /usr/share/applications/unknown.desktop\nbroken/usr/share/applications/vlc.desktop\nfar /opt/vlc.desktop\nlate /usr/share/applications/vlc.desktop.bak\n";
    add_owner_names(&mut map, listing);
    assert_eq!(at(&map, "nautilus").as_deref(), Some("Files"));
    assert_eq!(at(&map, "vlc-git").as_deref(), Some("VLC media player"));
    assert_eq!(at(&map, "other"), None);
    assert_eq!(at(&map, "far"), None);
    assert_eq!(at(&map, "late"), None);
    assert_eq!(at(&map, "broken/usr/share/applications/vlc.desktop"), None);
}

#[test]
fn tag_content_is_what_stands_between_the_tags() {
    let xml = "<component><id>org.app</id><name>App</name><name xml:lang=\"de\">Anw</name><summary>Does things</summary></component>";
    assert_eq!(extract_tag_content(xml, "id").as_deref(), Some("org.app"));
    assert_eq!(extract_tag_content(xml, "summary").as_deref(), Some("Does things"));
    assert_eq!(extract_tag_content(xml, "name").as_deref(), Some("App"));
    assert_eq!(extract_first_name(xml).as_deref(), Some("App"));
    assert_eq!(extract_tag_content(xml, "url"), None);
    assert_eq!(extract_tag_content("<id>open", "id"), None);
    assert_eq!(extract_tag_content("</id><id>x", "id"), None);
    assert_eq!(extract_tag_content("</id><id>x</id>", "id").as_deref(), Some("x"));
    assert_eq!(extract_tag_content("<id></id>", "id").as_deref(), Some(""));
    assert_eq!(extract_tag_content("<id>é<b></id>", "id").as_deref(), Some("é<b>"));
    assert_eq!(extract_first_name("<name xml:lang=\"de\">Anw</name>"), None);
    assert_eq!(extract_tag_content("", ""), None);
    assert_eq!(extract_tag_content("<></>", "").as_deref(), Some(""));
}

fn pair(map: &TextMap<(String, String)>, key: &str) -> Option<(String, String)> {
    map.pair_at(key).cloned()
}

#[test]
fn components_fill_the_table_of_flatpak_names() {
    let content = "<?xml version=\"1.0\"?><components><component type=\"desktop-application\"><id>org.One.App</id><name>One</name><summary>First</summary></component><component type=\"runtime\"><id>org.Run</id><name>Run</name></component><component type=\"desktop\"><id>org.two</id><name>Two</name></component><component type=\"desktop-application\"><id>org.three</id></component><component type=\"desktop-application\"><name>Nameless id</name></component><component type=\"desktop-application\"><id>org.open</id><name>Open</name>";
    let mut map: TextMap<(String, String)> = TextMap::new();
    parse_appstream_names(content, &mut map);
    assert_eq!(pair(&map, "org.one.app"), Some((String::from("One"), String::from("First"))));
    assert_eq!(pair(&map, "org.One.App"), None);
    assert_eq!(pair(&map, "org.two"), Some((String::from("Two"), String::new())));
    assert_eq!(pair(&map, "org.run"), None);
    assert_eq!(pair(&map, "org.three"), None);
    assert_eq!(pair(&map, "org.open"), None);
}

#[test]
fn a_later_component_replaces_an_earlier_one() {
    let content = "<component type=\"desktop\"><id>a</id><name>Old</name></component><component type=\"desktop\"><id>A</id><name>New</name><summary>s</summary></component>";
    let mut map: TextMap<(String, String)> = TextMap::new();
    map.put_pair(String::from("kept"), String::from("K"), String::from("k"));
    parse_appstream_names(content, &mut map);
    assert_eq!(pair(&map, "a"), Some((String::from("New"), String::from("s"))));
    assert_eq!(pair(&map, "kept"), Some((String::from("K"), String::from("k"))));
    parse_appstream_names("", &mut map);
    assert_eq!(pair(&map, "a"), Some((String::from("New"), String::from("s"))));
}

fn lines(text: &str) -> Vec<String> {
    text.lines().map(String::from).collect()
}

fn shown(rows: &Vec<PackageData>) -> Vec<(String, String, String)> {
    rows.iter().map(|r| (r.name.clone(), r.display_name.clone(), r.description.clone())).collect()
}

const CATALOGUE: &str = "<components>
  <component type=\"desktop-application\">
    <id>org.one</id>
    <name>One</name>
    <name xml:lang=\"de\">Eins</name>
    <name>Ignored</name>
    <summary>The first</summary>
    <summary>Ignored</summary>
    <categories>
      <category>Game</category>
      <category>Utility</category>
    </categories>
    <category>Office</category>
  </component>
  <component type=\"runtime\">
    <id>org.runtime</id>
    <categories>
      <category>Game</category>
    </categories>
  </component>
  <component type=\"desktop-application\">
    <id>org.two</id>
    <id>org.two.final</id>
    <name>Two</name>
    <categories>
      <category>Game</category>
    </categories>
  </component>
  <component type=\"desktop-application\">
    <id>org.three</id>
    <name>Three</name>
    <categories>
      <category>Office</category>
    </categories>
  </component>
</components>";

#[test]
fn a_catalogue_gives_the_rows_of_a_category() {
    let mut rows: Vec<PackageData> = Vec::new();
    parse_appstream_xml(&lines(CATALOGUE), "Game", &mut rows);
    assert_eq!(
        shown(&rows),
        vec![
            (String::from("org.one"), String::from("One"), String::from("The first")),
            (String::from("org.two.final"), String::from("Two"), String::new()),
        ]
    );
    assert_eq!(rows[0].repository, "flathub");
    assert_eq!(rows[0].backend, 1);
    assert!(!rows[0].installed);
    assert!(!rows[0].has_update);
    assert_eq!(rows[0].version, "");
    parse_appstream_xml(&lines(CATALOGUE), "Office", &mut rows);
    assert_eq!(rows.len(), 3);
    assert_eq!(rows[2].name, "org.three");
    parse_appstream_xml(&lines(CATALOGUE), "Nothing", &mut rows);
    assert_eq!(rows.len(), 3);
    parse_appstream_xml(&Vec::new(), "Game", &mut rows);
    assert_eq!(rows.len(), 3);
}

#[test]
fn a_runtime_inside_an_open_component_ends_it_with_what_was_seen() {
    let text = "<component type=\"desktop-application\">\n<id>a</id>\n<categories>\n<category>X</category>\n</component>\n<id>b</id>\n<category>Y</category>\n</component>\n<component type=\"desktop-application\">\n<category>X</category>\n<id>c</id>\n</component>";
    let mut rows: Vec<PackageData> = Vec::new();
    parse_appstream_xml(&lines(text), "X", &mut rows);
    assert_eq!(shown(&rows), vec![
        (String::from("a"), String::new(), String::new()),
        (String::from("c"), String::new(), String::new()),
    ]);
}

#[test]
fn repositories_are_the_sections_but_options() {
    let conf = "# pacman.conf\n[options]\nHoldPkg = pacman glibc\n\n  [core]  \nInclude = /etc/pacman.d/mirrorlist\n[extra]\n#[testing]\n[multilib\n[]\n[ spaced ]\n[a]]\n";
    assert_eq!(parse_pacman_repos(Some(conf)), vec!["core", "extra", "", " spaced ", "a]"]);
    assert!(parse_pacman_repos(None).is_empty());
    assert!(parse_pacman_repos(Some("")).is_empty());
    assert!(parse_pacman_repos(Some("[options]")).is_empty());
    assert_eq!(parse_pacman_repos(Some("[Options]\r\n[x]")), vec!["Options", "x"]);
}

#[test]
fn the_packages_of_a_repository() {
    let listing = "core\tbash\t5.2-1\tThe GNU shell\nextra\tvlc\t3.0-1\tMedia player\twith\ttabs\ncore\tzlib\t1.3-1\t\ncore\tshort\t1.0\nextra\tgimp\t2.10-1\tImage editor\n";
    let installed = "bash\ngimp\n";
    let mut map: TextMap<String> = TextMap::new();
    map.put(String::from("vlc"), String::from("VLC media player"));
    let rows = load_repo_packages(Some(listing), "extra", Some(installed), &map);
    assert_eq!(rows.len(), 2);
    assert_eq!(rows[0].name, "vlc");
    assert_eq!(rows[0].display_name, "VLC media player");
    assert_eq!(rows[0].version, "3.0-1");
    assert_eq!(rows[0].description, "Media player\twith\ttabs");
    assert_eq!(rows[0].repository, "extra");
    assert_eq!(rows[0].backend, 0);
    assert!(!rows[0].installed);
    assert!(!rows[0].has_update);
    assert_eq!(rows[1].name, "gimp");
    assert_eq!(rows[1].display_name, "Gimp");
    assert!(rows[1].installed);
    let core = load_repo_packages(Some(listing), "core", None, &map);
    assert_eq!(core.len(), 2);
    assert_eq!(core[1].name, "zlib");
    assert_eq!(core[1].description, "");
    assert!(!core[0].installed);
    assert!(load_repo_packages(None, "core", Some(installed), &map).is_empty());
    assert!(load_repo_packages(Some(listing), "community", Some(installed), &map).is_empty());
    assert!(load_repo_packages(Some(""), "", None, &map).is_empty());
}

#[test]
fn pending_updates_are_read_in_both_forms() {
    let output = "linux 6.1-1 -> 6.2-1\nvim 9.1-2\n\nonly\nbash 5.1-1 -> 5.2-1 extra words\ngit   2.40   2.41\n";
    let updates = parse_updates(output);
    assert_eq!(updates.len(), 4);
    assert_eq!(updates[0].name, "linux");
    assert_eq!(updates[0].current_version, Version::new("6.1-1"));
    assert_eq!(updates[0].new_version, Version::new("6.2-1"));
    assert_eq!(updates[0].backend, PackageBackend::Pacman);
    assert_eq!(updates[0].repository, "");
    assert_eq!(updates[0].download_size, 0);
    assert_eq!(updates[1].name, "vim");
    assert_eq!(updates[1].current_version, Version::new(""));
    assert_eq!(updates[1].new_version, Version::new("9.1-2"));
    assert_eq!(updates[2].name, "bash");
    assert_eq!(updates[2].new_version, Version::new("5.2-1"));
    assert_eq!(updates[3].name, "git");
    assert_eq!(updates[3].current_version, Version::new(""));
    assert_eq!(updates[3].new_version, Version::new("2.40"));
    assert!(parse_updates("").is_empty());
}
