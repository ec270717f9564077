use std::io::Write;

use zed_dl::asset::{help_message, kinds, parse_asset_kind, parse_command, AssetKind, Command, Selection};
use zed_dl::ascii::{equals, equals_ignore_case};
use zed_dl::error::DlError;
use zed_dl::markup::{render_body, render_events, MdEvent, MdTag};
use zed_dl::pause::{ends_pause, InputEvent};
use zed_dl::release::{find_asset, select_asset, Release, ReleaseAsset};
use zed_dl::unpack::{classify, extension_of, plan_unpack, Unpack, UnpackKind};

fn asset(name: &str) -> ReleaseAsset {
    ReleaseAsset { name: name.to_string(), download_url: format!("https://example.com/{name}") }
}

fn text(s: &str) -> MdEvent {
    MdEvent::Text(s.to_string())
}

fn zip_of(entries: &[(&str, &[u8])]) -> Vec<u8> {
    let mut w = zip::ZipWriter::new(std::io::Cursor::new(Vec::new()));
    for (name, bytes) in entries {
        w.start_file(*name, zip::write::SimpleFileOptions::default()).unwrap();
        w.write_all(bytes).unwrap();
    }
    w.finish().unwrap().into_inner()
}

#[test]
fn classify_routes_supported_extensions() {
    assert_eq!(classify("zed.zip"), Ok(UnpackKind::Archive));
    assert_eq!(classify("ZED.ZIP"), Ok(UnpackKind::Archive));
    assert_eq!(classify("zed-opengl.Zip"), Ok(UnpackKind::Archive));
    assert_eq!(classify("zed.exe"), Ok(UnpackKind::Executable));
    assert_eq!(classify("zed.EXE"), Ok(UnpackKind::Executable));
}

#[test]
fn classify_rejects_other_extensions() {
    assert_eq!(classify("zed.tar.gz"), Err(DlError::UnsupportedFormat("gz".to_string())));
    assert_eq!(classify("zed.msi"), Err(DlError::UnsupportedFormat("msi".to_string())));
    assert_eq!(classify("zed.zip.sig"), Err(DlError::UnsupportedFormat("sig".to_string())));
    assert_eq!(classify("zed."), Err(DlError::UnsupportedFormat(String::new())));
}

#[test]
fn classify_needs_an_extension() {
    assert_eq!(classify("zed"), Err(DlError::InvalidFormat));
    assert_eq!(classify(""), Err(DlError::InvalidFormat));
}

#[test]
fn extension_is_text_after_last_dot() {
    assert_eq!(extension_of("a.b.c"), Some("c".to_string()));
    assert_eq!(extension_of("zed-opengl.zip"), Some("zip".to_string()));
    assert_eq!(extension_of("noext"), None);
}

#[test]
fn identifier_matching_ignores_case() {
    for s in ["vulkan", "Vulkan", "VULKAN", "vUlKaN"] {
        let k = parse_asset_kind(s).unwrap();
        assert_eq!(k, AssetKind::Vulkan);
        assert_eq!(k.file_name(), "zed.exe");
    }
    assert_eq!(parse_asset_kind("zipopengl").unwrap().file_name(), "zed-opengl.zip");
    assert_eq!(parse_asset_kind("OPENGL").unwrap().file_name(), "zed-opengl.exe");
    assert_eq!(parse_asset_kind("ZipVulkan").unwrap().file_name(), "zed.zip");
}

#[test]
fn unknown_identifier_is_invalid_argument() {
    assert_eq!(parse_asset_kind("foo"), Err(DlError::InvalidArgument("foo".to_string())));
    assert_eq!(parse_asset_kind("vulkan2"), Err(DlError::InvalidArgument("vulkan2".to_string())));
}

#[test]
fn foo_fails_before_any_download() {
    assert_eq!(parse_command(Some("foo")), Err(DlError::InvalidArgument("foo".to_string())));
}

#[test]
fn help_flags_ask_for_help() {
    assert_eq!(parse_command(Some("--help")), Ok(Command::Help));
    assert_eq!(parse_command(Some("-h")), Ok(Command::Help));
    assert_eq!(parse_command(Some("--HELP")), Err(DlError::InvalidArgument("--HELP".to_string())));
}

#[test]
fn command_selects_asset() {
    assert_eq!(parse_command(None), Ok(Command::Download(Selection::First)));
    assert_eq!(parse_command(Some("zipvulkan")), Ok(Command::Download(Selection::Kind(AssetKind::ZipVulkan))));
}

#[test]
fn help_lists_identifiers() {
    assert_eq!(
        help_message(),
        "zed-dl <ASSET>\n\nAsset types are as follows (case-insensitive):\nOpenGl\nZipOpenGl\nVulkan\nZipVulkan\n"
    );
    let names: Vec<&str> = kinds().iter().map(|k| k.name()).collect();
    assert_eq!(names, vec!["OpenGl", "ZipOpenGl", "Vulkan", "ZipVulkan"]);
}

#[test]
fn empty_assets_fail_for_every_policy() {
    let none: Vec<ReleaseAsset> = Vec::new();
    assert_eq!(select_asset(&none, Selection::First), Err(DlError::NotFound));
    for k in kinds() {
        assert_eq!(select_asset(&none, Selection::Kind(k)), Err(DlError::NotFound));
    }
}

#[test]
fn selection_finds_first_case_insensitive_match() {
    let assets = vec![asset("zed-opengl.zip"), asset("ZED.EXE"), asset("zed.exe")];
    assert_eq!(select_asset(&assets, Selection::First), Ok(0));
    assert_eq!(select_asset(&assets, Selection::Kind(AssetKind::Vulkan)), Ok(1));
    assert_eq!(select_asset(&assets, Selection::Kind(AssetKind::ZipOpenGl)), Ok(0));
    assert_eq!(select_asset(&assets, Selection::Kind(AssetKind::ZipVulkan)), Err(DlError::NotFound));
    assert_eq!(find_asset(&assets, "Zed.Exe"), Some(1));
    assert_eq!(find_asset(&assets, "zed"), None);
}

#[test]
fn release_select_and_notes() {
    let r = Release { tag: "v1".to_string(), body: None, assets: vec![asset("zed.zip")] };
    assert_eq!(r.select(Selection::Kind(AssetKind::ZipVulkan)), Ok(0));
    assert_eq!(r.notes(), Ok(None));
    let r = Release { body: Some("*hi*".to_string()), ..r };
    assert_eq!(r.notes(), Err(DlError::UnknownMarkup));
    let r = Release { body: Some("**hi**".to_string()), ..r };
    assert_eq!(r.notes(), Ok(Some("**hi**".to_string())));
}

#[test]
fn plain_text_renders_unchanged() {
    assert_eq!(render_body("hello world").unwrap(), "hello world");
    assert_eq!(render_body("first line\nsecond line").unwrap(), "first line\nsecond line");
    assert_eq!(render_body("").unwrap(), "");
    let evs = vec![MdEvent::Start(MdTag::Paragraph), text("a"), MdEvent::SoftBreak, text("b"), MdEvent::End(MdTag::Paragraph)];
    assert_eq!(render_events(&evs).unwrap(), "a\nb");
}

#[test]
fn heading_bold_and_code_kept() {
    assert_eq!(render_body("# Title\n\n**bold** and `code`").unwrap(), "# Title\n\n**bold** and `code`");
}

#[test]
fn headings_of_every_level() {
    assert_eq!(render_body("### Three").unwrap(), "### Three");
    assert_eq!(render_body("###### Six").unwrap(), "###### Six");
    let evs = vec![MdEvent::Start(MdTag::Heading(7)), text("x")];
    assert_eq!(render_events(&evs), Err(DlError::UnknownMarkup));
}

#[test]
fn links_keep_their_text_only() {
    assert_eq!(render_body("see [the docs](https://example.com)").unwrap(), "see the docs");
}

#[test]
fn list_items_are_starred() {
    assert_eq!(render_body("* a\n* b").unwrap(), "* a\n* b");
}

#[test]
fn table_and_code_block_fragments() {
    let evs = vec![
        MdEvent::Start(MdTag::Table),
        MdEvent::Start(MdTag::TableHead),
        MdEvent::Start(MdTag::TableCell),
        text("a"),
        MdEvent::End(MdTag::TableCell),
        MdEvent::End(MdTag::TableHead),
        MdEvent::Start(MdTag::TableRow),
        MdEvent::Start(MdTag::TableCell),
        text("1"),
        MdEvent::End(MdTag::TableCell),
        MdEvent::End(MdTag::TableRow),
        MdEvent::End(MdTag::Table),
        MdEvent::Start(MdTag::CodeBlock),
        text("x\n"),
        MdEvent::End(MdTag::CodeBlock),
        MdEvent::Start(MdTag::Strikethrough),
        text("old"),
        MdEvent::End(MdTag::Strikethrough),
        MdEvent::Code("c".to_string()),
        MdEvent::HardBreak,
    ];
    assert_eq!(render_events(&evs).unwrap(), "\n| - | - |\n|a|\n|1|\n\n```\nx\n\n```~~old~~`c`\n");
}

#[test]
fn unknown_markup_is_fatal() {
    assert_eq!(render_body("> quoted"), Err(DlError::UnknownMarkup));
    assert_eq!(render_body("a\n\n---\n"), Err(DlError::UnknownMarkup));
    assert_eq!(render_events(&vec![text("a"), MdEvent::Other]), Err(DlError::UnknownMarkup));
}

#[test]
fn archive_lists_its_entries() {
    let bytes = zip_of(&[("a.txt", b"alpha"), ("b/c.txt", b"gamma")]);
    assert_eq!(
        plan_unpack("bundle.zip", &bytes),
        Ok(Unpack::Archive(vec!["a.txt".to_string(), "b/c.txt".to_string()]))
    );
}

#[test]
fn corrupt_archive_is_reported() {
    assert_eq!(plan_unpack("zed.zip", b"not an archive"), Err(DlError::CorruptArchive));
}

#[test]
fn executable_is_written_under_its_name() {
    assert_eq!(plan_unpack("zed.exe", b"MZ"), Ok(Unpack::Executable("zed.exe".to_string())));
    assert_eq!(plan_unpack("zed.dmg", b""), Err(DlError::UnsupportedFormat("dmg".to_string())));
    assert_eq!(plan_unpack("zed", b""), Err(DlError::InvalidFormat));
}

#[test]
fn only_a_key_ends_the_pause() {
    assert!(ends_pause(InputEvent::Key));
    for e in [InputEvent::Mouse, InputEvent::Resize, InputEvent::Focus, InputEvent::Paste] {
        assert!(!ends_pause(e));
    }
}

#[test]
fn text_comparisons() {
    assert!(equals_ignore_case("Zed.ZIP", "zed.zip"));
    assert!(!equals_ignore_case("zed.zip", "zed.zi"));
    assert!(!equals_ignore_case("é", "É"));
    assert!(equals("-h", "-h"));
    assert!(!equals("-h", "-H"));
}
