//! Updating the program, and the commands of `cim utils`.

use cim_core::archive::{
    find_binary, found_before_overrun, is_binary, is_lacking_extension, search_entries,
    search_listed, BinarySearch, ListedEntry,
};
use cim_core::message::{Level, Message};
use cim_core::overrun::{find_overrun, find_size_record, PaxRecord, BLOCK};
use cim_core::path::FsPath;
use cim_core::repair::RepairWork;
use cim_core::update::{
    describe_bad_status, handle_utils_update_command, Update, UpdateEvent, UpdateWork,
    BINARY_MODE, DOWNLOAD_TIMEOUT_SECS, MAX_REDIRECTS,
};
use cim_core::utils_cmd::{handle_utils_command, UtilsCommand, UtilsTask};
use std::io::Write;

fn path(s: &str) -> FsPath {
    FsPath::from_text(s)
}

fn some(s: &str) -> Option<String> {
    Some(s.to_string())
}

fn say(level: Level, text: &str) -> Message {
    Message { level, text: text.to_string() }
}

fn gzip(bytes: &[u8]) -> Vec<u8> {
    let mut encoder =
        flate2::write::GzEncoder::new(Vec::new(), flate2::Compression::default());
    encoder.write_all(bytes).unwrap();
    encoder.finish().unwrap()
}

fn tar_of(names: &[&str]) -> Vec<u8> {
    let mut builder = tar::Builder::new(Vec::new());
    for name in names {
        let body = b"#!/bin/sh\n";
        let mut header = tar::Header::new_gnu();
        header.set_size(body.len() as u64);
        header.set_mode(0o644);
        header.set_cksum();
        builder.append_data(&mut header, name, &body[..]).unwrap();
    }
    builder.into_inner().unwrap()
}

fn archive(names: &[&str]) -> Vec<u8> {
    gzip(&tar_of(names))
}

// ---- the archive ----

#[test]
fn binary_is_found_by_its_file_name() {
    assert_eq!(find_binary(&archive(&["README.md", "cim"])), BinarySearch::Found(1));
    assert_eq!(
        find_binary(&archive(&["cim.old", "bin/cim", "cim"])),
        BinarySearch::Found(1)
    );
    let long = format!("{}/cim", "d".repeat(150));
    assert_eq!(find_binary(&archive(&["x", &long])), BinarySearch::Found(1));
}

#[test]
fn archive_without_binary_is_reported() {
    assert_eq!(find_binary(&archive(&["README.md", "cimx"])), BinarySearch::Missing);
    assert_eq!(find_binary(&archive(&["cim/README.md"])), BinarySearch::Missing);
    assert_eq!(find_binary(&archive(&[])), BinarySearch::Missing);
}

#[test]
fn broken_archive_is_reported() {
    assert!(matches!(find_binary(b"not gzip at all"), BinarySearch::BadEntry(_)));
    let mut cut = tar_of(&["README.md", "cim"]);
    cut.truncate(700);
    assert!(matches!(find_binary(&gzip(&cut)), BinarySearch::BadEntry(_)));
    // What follows the program does not matter.
    let mut cut = tar_of(&["cim", "README.md"]);
    cut.truncate(1300);
    assert_eq!(find_binary(&gzip(&cut)), BinarySearch::Found(0));
}

/// A GNU header of a sparse file of this size, with this many more blocks behind
/// it.
fn sparse(name: &str, size: u64, blocks: usize) -> Vec<u8> {
    let mut header = tar::Header::new_gnu();
    header.set_path(name).unwrap();
    header.set_entry_type(tar::EntryType::GNUSparse);
    header.set_mode(0o644);
    header.set_size(size);
    let gnu = header.as_gnu_mut().unwrap();
    gnu.isextended[0] = (blocks > 0) as u8;
    gnu.realsize = *b"00000000000\0";
    header.set_cksum();
    let mut out = header.as_bytes().to_vec();
    for i in 0..blocks {
        let mut block = vec![0; BLOCK];
        block[504] = (i + 1 < blocks) as u8;
        out.extend(block);
    }
    out
}

/// The size that leaves no room for one more block behind a header at `at`.
fn huge_at(at: usize) -> u64 {
    u64::MAX - 511 - (at + BLOCK) as u64
}

/// A tar file without the empty blocks at its end.
fn open_tar(names: &[&str]) -> Vec<u8> {
    let mut out = tar_of(names);
    out.truncate(names.len() * 2 * BLOCK);
    out
}

/// A file with these bytes, without the empty blocks behind it.
fn file(name: &str, body: &[u8]) -> Vec<u8> {
    let mut header = tar::Header::new_gnu();
    header.set_path(name).unwrap();
    header.set_size(body.len() as u64);
    header.set_mode(0o644);
    header.set_cksum();
    described(header, body)
}

/// A header that describes the next file, with its bytes.
fn describing(header: tar::Header, kind: tar::EntryType, body: &[u8]) -> Vec<u8> {
    let mut header = header;
    header.set_path("about").unwrap();
    header.set_entry_type(kind);
    header.set_size(body.len() as u64);
    header.set_cksum();
    described(header, body)
}

fn described(header: tar::Header, body: &[u8]) -> Vec<u8> {
    let mut out = header.as_bytes().to_vec();
    out.extend_from_slice(body);
    out.resize(out.len().div_ceil(BLOCK) * BLOCK, 0);
    out
}

/// A header with one extended record.
fn pax(key: &str, value: &str) -> Vec<u8> {
    let rest = format!(" {}={}\n", key, value);
    let mut len = rest.len() + 1;
    while len.to_string().len() + rest.len() != len {
        len += 1;
    }
    let body = format!("{}{}", len, rest);
    describing(tar::Header::new_ustar(), tar::EntryType::XHeader, body.as_bytes())
}

fn pax_size(size: &str) -> Vec<u8> {
    pax("size", size)
}

fn long_name(name: &str) -> Vec<u8> {
    describing(
        tar::Header::new_gnu(),
        tar::EntryType::GNULongName,
        format!("{}\0", name).as_bytes(),
    )
}

fn search(parts: &[Vec<u8>]) -> BinarySearch {
    find_binary(&gzip(&parts.concat()))
}

fn overflow() -> BinarySearch {
    BinarySearch::BadEntry("size overflow".to_string())
}

fn unreadable(why: &str) -> BinarySearch {
    BinarySearch::BadEntry(why.to_string())
}

#[test]
fn block_that_cannot_be_counted_is_not_read() {
    let huge = sparse("sparse", huge_at(0), 1);
    assert_eq!(find_overrun(&huge, true), Some(BLOCK));
    assert_eq!(search(&[huge]), overflow());

    let parts = [open_tar(&["README.md"]), sparse("sparse", huge_at(1024), 1), tar_of(&["cim"])];
    assert_eq!(find_overrun(&parts.concat(), true), Some(3 * BLOCK));
    assert_eq!(search(&parts), overflow());
}

#[test]
fn second_block_may_be_the_one_that_cannot_be_counted() {
    let size = huge_at(0) - 512;
    let parts = [sparse("sparse", size, 2), tar_of(&["cim"])];
    assert_eq!(find_overrun(&parts.concat(), true), Some(2 * BLOCK));
    assert_eq!(search(&parts), overflow());
    // With one block there is room, but no such file.
    let parts = [sparse("sparse", size, 1), tar_of(&["cim"])];
    assert_eq!(find_overrun(&parts.concat(), true), None);
    assert!(matches!(search(&parts), BinarySearch::BadEntry(_)));
    assert_ne!(search(&parts), overflow());
}

#[test]
fn program_before_a_block_that_cannot_be_counted_is_found() {
    let parts = [open_tar(&["README.md", "bin/cim"]), sparse("sparse", huge_at(2048), 1)];
    assert_eq!(find_overrun(&parts.concat(), true), Some(5 * BLOCK));
    assert_eq!(search(&parts), BinarySearch::Found(1));
}

#[test]
fn replaced_size_counts() {
    let size = huge_at(1024).to_string();
    let parts = [pax_size(&size), sparse("sparse", 0, 1), tar_of(&["cim"])];
    assert_eq!(find_overrun(&parts.concat(), true), Some(3 * BLOCK));
    assert_eq!(search(&parts), overflow());
    // Behind a long name too.
    let size = huge_at(2048).to_string();
    let parts = [pax_size(&size), long_name("s"), sparse("sparse", 0, 1), tar_of(&["cim"])];
    assert_eq!(find_overrun(&parts.concat(), true), Some(5 * BLOCK));
    assert_eq!(search(&parts), overflow());
    // But for one file only.
    let parts = [
        pax_size("10"),
        file("a", b"0123456789"),
        sparse("sparse", 0, 1),
        tar_of(&["cim"]),
    ];
    assert_eq!(find_overrun(&parts.concat(), true), None);
    assert_eq!(search(&parts), BinarySearch::Found(2));
    // And a size that is none counts for nothing.
    let parts = [pax_size("18446744073709551616"), sparse("sparse", 0, 1), tar_of(&["cim"])];
    assert_eq!(find_overrun(&parts.concat(), true), None);
    assert_eq!(search(&parts), BinarySearch::Found(1));
}

#[test]
fn replaced_size_moves_the_next_header() {
    // The record says that the file has two more blocks than its header does.
    let hidden = sparse("hidden", huge_at(2048), 1);
    let mut about = file("a", b"");
    about.extend(&hidden);
    let parts = [pax_size("1024"), about, tar_of(&["cim"])];
    assert_eq!(find_overrun(&parts.concat(), true), None);
    assert_eq!(search(&parts), BinarySearch::Found(1));
}

#[test]
fn sparse_files_are_followed() {
    let parts = [sparse("sparse", 0, 1), tar_of(&["cim"])];
    assert_eq!(find_overrun(&parts.concat(), true), None);
    assert_eq!(search(&parts), BinarySearch::Found(1));
    let parts = [sparse("sparse", 0, 3), tar_of(&["cim"])];
    assert_eq!(find_overrun(&parts.concat(), true), None);
    assert_eq!(search(&parts), BinarySearch::Found(1));
    // Without more blocks the size is checked.
    let parts = [sparse("sparse", huge_at(0), 0), tar_of(&["cim"])];
    assert_eq!(find_overrun(&parts.concat(), true), None);
    assert!(matches!(search(&parts), BinarySearch::BadEntry(_)));
}

#[test]
fn bytes_of_a_file_are_no_headers() {
    // A letter in a text does not make an extended record of it.
    let text = file("notes.txt", &[b'x'; 512]);
    let parts = [text, sparse("sparse", 0, 1), tar_of(&["cim"])];
    assert_eq!(find_overrun(&parts.concat(), true), None);
    assert_eq!(search(&parts), BinarySearch::Found(2));
    // Nor does a file that holds such a header lead anywhere.
    let nested = file("nested.tar", &sparse("sparse", huge_at(512), 1));
    let parts = [nested, tar_of(&["cim"])];
    assert_eq!(find_overrun(&parts.concat(), true), None);
    assert_eq!(search(&parts), BinarySearch::Found(1));
}

#[test]
fn ordinary_records_before_a_sparse_file_do_not_matter() {
    let parts = [
        pax("path", "renamed"),
        file("a", b""),
        pax("mtime", "1700000000.5"),
        sparse("sparse", 0, 1),
        tar_of(&["cim"]),
    ];
    assert_eq!(find_overrun(&parts.concat(), true), None);
    assert_eq!(search(&parts), BinarySearch::Found(2));
    // A record can name the program.
    let parts = [pax("path", "bin/cim"), file("a", b""), tar_of(&[])];
    assert_eq!(search(&parts), BinarySearch::Found(0));
}

#[test]
fn archive_that_ends_earlier_is_searched_as_a_whole() {
    // The headers lead to a block that cannot be counted, but a header before
    // it is damaged.
    let mut damaged = file("a", b"");
    damaged[0] = b'b';
    let parts = [damaged, sparse("sparse", huge_at(512), 1), tar_of(&["cim"])];
    assert_eq!(find_overrun(&parts.concat(), true), Some(2 * BLOCK));
    assert_eq!(search(&parts), unreadable("archive header checksum mismatch"));
    // The block is not there.
    let mut cut = sparse("sparse", huge_at(0), 1);
    cut.truncate(BLOCK);
    assert_eq!(find_overrun(&cut, true), None);
    assert_eq!(find_overrun(&cut, false), Some(BLOCK));
    assert_eq!(search(&[cut]), unreadable("failed to read extension"));
    // The archive ends before it.
    let parts = [open_tar(&["a"]), vec![0; 1024], sparse("sparse", huge_at(2048), 1)];
    assert_eq!(find_overrun(&parts.concat(), true), None);
    assert_eq!(search(&parts), BinarySearch::Missing);
}

#[test]
fn gzip_that_breaks_off_is_reported() {
    let whole = gzip(&[open_tar(&["README.md"]), tar_of(&["cim"])].concat());
    let cut = &whole[..whole.len() - 12];
    assert!(!matches!(find_binary(cut), BinarySearch::BadArchive(_)));
    assert!(matches!(find_binary(&whole[..20]), BinarySearch::BadEntry(_)));
    let huge = gzip(&sparse("sparse", huge_at(0), 1));
    for n in 0..huge.len() {
        assert!(matches!(find_binary(&huge[..n]), BinarySearch::BadEntry(_)), "{}", n);
    }
}

#[test]
fn size_records_are_read_in_order() {
    let pair = |k: &str, v: &str| PaxRecord::Pair { key: some(k), value: some(v) };
    assert_eq!(find_size_record(&vec![]), None);
    assert_eq!(find_size_record(&vec![pair("path", "x"), pair("size", "7")]), Some(7));
    assert_eq!(find_size_record(&vec![pair("size", "7"), pair("size", "8")]), Some(7));
    assert_eq!(find_size_record(&vec![pair("size", "-1"), pair("size", "8")]), None);
    assert_eq!(find_size_record(&vec![PaxRecord::Malformed, pair("size", "8")]), None);
    let odd = PaxRecord::Pair { key: None, value: some("3") };
    assert_eq!(find_size_record(&vec![odd, pair("size", "8")]), Some(8));
    let odd = PaxRecord::Pair { key: some("size"), value: None };
    assert_eq!(find_size_record(&vec![odd, pair("size", "8")]), None);
}

#[test]
fn short_data_has_no_header() {
    assert_eq!(find_overrun(&vec![], true), None);
    let mut cut = sparse("sparse", huge_at(0), 1);
    cut.truncate(BLOCK - 1);
    assert_eq!(find_overrun(&cut, false), None);
}

#[test]
fn missing_extension_is_recognised() {
    let bad = |why: &str| ListedEntry::Unreadable(why.to_string());
    let good = || ListedEntry::Path(path("a"));
    assert!(is_lacking_extension(&Ok(vec![good(), bad("failed to read extension")])));
    assert!(!is_lacking_extension(&Ok(vec![good(), bad("unexpected EOF during skip")])));
    assert!(!is_lacking_extension(&Ok(vec![good()])));
    assert!(!is_lacking_extension(&Ok(vec![])));
    assert!(!is_lacking_extension(&Err("failed to read extension".to_string())));
}

#[test]
fn what_was_found_before_an_overrun_counts() {
    assert_eq!(found_before_overrun(BinarySearch::Found(3)), BinarySearch::Found(3));
    assert_eq!(found_before_overrun(BinarySearch::Missing), overflow());
    assert_eq!(found_before_overrun(BinarySearch::BadEntry("x".to_string())), overflow());
    assert_eq!(
        search_listed(Err("odd".to_string())),
        BinarySearch::BadArchive("odd".to_string())
    );
    assert_eq!(search_listed(Ok(vec![ListedEntry::Path(path("cim"))])), BinarySearch::Found(0));
}

#[test]
fn entries_are_searched_in_order() {
    let bad = || ListedEntry::Unreadable("bad header".to_string());
    let good = |s: &str| ListedEntry::Path(path(s));
    assert_eq!(search_entries(&vec![]), BinarySearch::Missing);
    assert_eq!(search_entries(&vec![good("a"), good("b/cim/")]), BinarySearch::Found(1));
    assert_eq!(
        search_entries(&vec![good("a"), bad(), good("cim")]),
        BinarySearch::BadEntry("bad header".to_string())
    );
    assert_eq!(search_entries(&vec![good("cim"), bad()]), BinarySearch::Found(0));
    assert!(is_binary(&path("./cim")));
    assert!(!is_binary(&path("cim/..")));
    assert!(!is_binary(&path("")));
    assert!(!is_binary(&path("CIM")));
}

// ---- the update ----

fn start() -> Update {
    let update =
        handle_utils_update_command("1.2.3".to_string(), "x86_64-linux".to_string(), false);
    assert_eq!(update.work, UpdateWork::FindInPath);
    update
}

fn next(u: Update, event: UpdateEvent) -> Update {
    let (u, said) = u.step(event);
    assert!(said.is_empty(), "{:?}", said);
    u
}

fn located() -> Update {
    let (u, said) = start().step(UpdateEvent::InPath(Some(path("/usr/bin/cim"))));
    assert_eq!(
        said,
        vec![
            say(Level::Status, "Updating: /usr/bin/cim"),
            say(Level::Status, "Current cim version: v1.2.3"),
        ]
    );
    assert_eq!(u.work, UpdateWork::FetchLatest);
    u
}

fn compared() -> Update {
    let u = next(located(), UpdateEvent::Latest(some("1.3.0")));
    assert_eq!(
        u.work,
        UpdateWork::CompareVersions {
            current: "1.2.3".to_string(),
            latest: "1.3.0".to_string(),
        }
    );
    u
}

fn naming() -> Update {
    let (u, said) = compared().step(UpdateEvent::Newer(true));
    assert_eq!(said, vec![say(Level::Status, "New version available: v1.2.3 → v1.3.0")]);
    assert_eq!(u.work, UpdateWork::NameArchive("1.3.0".to_string()));
    u
}

fn named() -> Update {
    let (u, said) = naming().step(UpdateEvent::ArchiveName(some("cim.tar.gz")));
    assert_eq!(said, vec![say(Level::Status, "Downloading cim.tar.gz...")]);
    assert_eq!(u.work, UpdateWork::MakeTempDir);
    u
}

fn building() -> Update {
    let u = next(named(), UpdateEvent::TempDir(path("/tmp/x")));
    assert_eq!(
        u.work,
        UpdateWork::BuildClient {
            timeout_secs: DOWNLOAD_TIMEOUT_SECS,
            user_agent: "cim/1.2.3".to_string(),
            max_redirects: MAX_REDIRECTS,
        }
    );
    u
}

fn downloading() -> Update {
    let u = next(building(), UpdateEvent::Success);
    assert_eq!(
        u.work,
        UpdateWork::Download(
            "https://github.com/analogdevicesinc/cim/releases/latest/download/cim.tar.gz"
                .to_string()
        )
    );
    u
}

fn reading() -> Update {
    let u = next(downloading(), UpdateEvent::Response(200));
    assert_eq!(u.work, UpdateWork::ReadBody);
    u
}

fn writing(bytes: Vec<u8>) -> Update {
    let u = next(reading(), UpdateEvent::Body(bytes));
    assert_eq!(u.work, UpdateWork::WriteArchive(path("/tmp/x/cim.tar.gz")));
    u
}

fn opening(bytes: Vec<u8>) -> Update {
    let (u, said) = writing(bytes).step(UpdateEvent::Success);
    assert_eq!(said, vec![say(Level::Status, "Extracting cim binary...")]);
    assert_eq!(u.work, UpdateWork::OpenArchive(path("/tmp/x/cim.tar.gz")));
    u
}

fn unpacking() -> Update {
    let u = next(opening(archive(&["LICENSE", "cim"])), UpdateEvent::Success);
    assert_eq!(u.work, UpdateWork::Unpack { entry: 1, to: path("/tmp/x/cim") });
    u
}

fn permitting() -> Update {
    let u = next(unpacking(), UpdateEvent::Success);
    assert_eq!(u.work, UpdateWork::SetMode { path: path("/tmp/x/cim"), mode: 0o755 });
    u
}

fn renaming() -> Update {
    let u = next(permitting(), UpdateEvent::Success);
    assert_eq!(
        u.work,
        UpdateWork::Rename { from: path("/usr/bin/cim"), to: path("/usr/bin/cim.old") }
    );
    u
}

fn copying() -> Update {
    let u = next(renaming(), UpdateEvent::Success);
    assert_eq!(
        u.work,
        UpdateWork::Copy { from: path("/tmp/x/cim"), to: path("/usr/bin/cim") }
    );
    u
}

fn ends_with(u: Update, event: UpdateEvent, level: Level, text: &str) {
    let (u, said) = u.step(event);
    assert_eq!(said, vec![say(level, text)]);
    assert_eq!(u.work, UpdateWork::Done);
    let (u, said) = u.step(UpdateEvent::Success);
    assert!(said.is_empty());
    assert_eq!(u.work, UpdateWork::Done);
}

fn failure() -> UpdateEvent {
    UpdateEvent::Failure("why".to_string())
}

#[test]
fn update_constants() {
    assert_eq!(DOWNLOAD_TIMEOUT_SECS, 300);
    assert_eq!(MAX_REDIRECTS, 10);
    assert_eq!(BINARY_MODE, 0o755);
}

#[test]
fn update_replaces_the_program() {
    ends_with(
        copying(),
        UpdateEvent::Success,
        Level::Success,
        "Successfully updated cim from v1.2.3 to v1.3.0",
    );
}

#[test]
fn update_falls_back_to_the_running_program() {
    let u = next(start(), UpdateEvent::InPath(None));
    assert_eq!(u.work, UpdateWork::CurrentExe);
    let (u, said) = u.step(UpdateEvent::Exe(Some(path("/opt/cim"))));
    assert_eq!(said[0], say(Level::Status, "Updating: /opt/cim"));
    assert_eq!(u.work, UpdateWork::FetchLatest);

    let u = next(start(), UpdateEvent::InPath(None));
    ends_with(
        u,
        UpdateEvent::Exe(None),
        Level::Error,
        "Cannot locate the installed cim binary in PATH.",
    );
}

#[test]
fn update_ends_silently_without_a_release() {
    let u = next(located(), UpdateEvent::Latest(None));
    assert_eq!(u.work, UpdateWork::Done);
}

#[test]
fn update_ends_where_nothing_is_new() {
    ends_with(
        compared(),
        UpdateEvent::Newer(false),
        Level::Success,
        "cim is already up to date (v1.2.3)",
    );
}

#[test]
fn update_needs_an_archive_for_the_platform() {
    ends_with(
        naming(),
        UpdateEvent::ArchiveName(None),
        Level::Error,
        "No prebuilt release for platform 'x86_64-linux'. Please build from source.",
    );
}

#[test]
fn update_reports_each_failure() {
    let cases = [
        (named(), "Failed to create temporary directory: why"),
        (building(), "Failed to build HTTP client: why"),
        (downloading(), "Download failed: why"),
        (reading(), "Failed to read download: why"),
        (writing(vec![]), "Failed to save archive: why"),
        (opening(vec![]), "Failed to open archive: why"),
        (unpacking(), "Failed to extract cim binary: why"),
        (permitting(), "Failed to set executable permissions: why"),
        (renaming(), "Failed to rename current binary to cim.old: why"),
    ];
    for (u, text) in cases {
        ends_with(u, failure(), Level::Error, text);
    }
}

#[test]
fn update_reports_a_bad_status() {
    let cases = [
        (404, "HTTP 404 downloading cim.tar.gz: Not Found"),
        (503, "HTTP 503 downloading cim.tar.gz: Service Unavailable"),
        (199, "HTTP 199 downloading cim.tar.gz: error"),
        (300, "HTTP 300 downloading cim.tar.gz: Multiple Choices"),
        (599, "HTTP 599 downloading cim.tar.gz: error"),
    ];
    for (status, text) in cases {
        ends_with(downloading(), UpdateEvent::Response(status), Level::Error, text);
    }
    for status in [200, 204, 299] {
        let u = next(downloading(), UpdateEvent::Response(status));
        assert_eq!(u.work, UpdateWork::ReadBody);
    }
    assert_eq!(describe_bad_status(418, "a", &None), "HTTP 418 downloading a: error");
    assert_eq!(
        describe_bad_status(418, "a", &some("I'm a teapot")),
        "HTTP 418 downloading a: I'm a teapot"
    );
}

#[test]
fn update_needs_a_binary_in_the_archive() {
    ends_with(
        opening(archive(&["LICENSE"])),
        UpdateEvent::Success,
        Level::Error,
        "Archive does not contain a 'cim' binary.",
    );
    let (u, said) = opening(b"not gzip".to_vec()).step(UpdateEvent::Success);
    assert_eq!(u.work, UpdateWork::Done);
    assert_eq!(said.len(), 1);
    assert!(said[0].text.starts_with("Failed to read archive entry: "));
    let (u, said) = opening(vec![]).searched(BinarySearch::BadArchive("odd".to_string()));
    assert_eq!(u.work, UpdateWork::Done);
    assert_eq!(said, vec![say(Level::Error, "Failed to read archive entries: odd")]);
}

#[test]
fn failed_copy_is_undone() {
    for last in [UpdateEvent::Success, failure()] {
        let (u, said) = copying().step(failure());
        assert_eq!(
            said,
            vec![say(
                Level::Error,
                "Failed to copy new binary: why. Old binary preserved at /usr/bin/cim.old"
            )]
        );
        assert_eq!(
            u.work,
            UpdateWork::Restore { from: path("/usr/bin/cim.old"), to: path("/usr/bin/cim") }
        );
        let u = next(u, last);
        assert_eq!(u.work, UpdateWork::Done);
    }
}

#[test]
fn windows_cannot_update_itself() {
    let u = Update { windows: true, ..writing(archive(&["cim"])) };
    let (u, said) = u.step(UpdateEvent::Success);
    assert_eq!(
        said,
        vec![
            say(Level::Status, "Extracting cim binary..."),
            say(
                Level::Error,
                "Self-update via 'cim utils update' is not supported on Windows. \
                 Please download and install manually from: \
                 https://github.com/analogdevicesinc/cim/releases/latest"
            ),
        ]
    );
    assert_eq!(u.work, UpdateWork::Done);
}

#[test]
fn update_ignores_events_that_answer_nothing() {
    let u = next(downloading(), UpdateEvent::Success);
    assert_eq!(u, downloading());
}

// ---- the commands ----

#[test]
fn utils_commands_become_tasks() {
    let task = |c: &UtilsCommand| handle_utils_command(c, "1.2.3", "arm", false);
    assert_eq!(
        task(&UtilsCommand::HashCopyFiles {
            file: Some(path("f.yml")),
            dry_run: true,
            verbose: false,
            add_missing: true,
        }),
        UtilsTask::HashCopyFiles {
            file: Some(path("f.yml")),
            dry_run: true,
            verbose: false,
            add_missing: true,
        }
    );
    assert_eq!(
        task(&UtilsCommand::HashToolchains {
            file: None,
            dry_run: false,
            verbose: true,
            add_missing: false,
        }),
        UtilsTask::HashToolchains {
            file: None,
            dry_run: false,
            verbose: true,
            add_missing: false,
        }
    );
    assert_eq!(
        task(&UtilsCommand::SyncCopyFiles {
            file: None,
            dry_run: false,
            verbose: false,
            force: true,
        }),
        UtilsTask::SyncCopyFiles { file: None, dry_run: false, verbose: false, force: true }
    );
}

#[test]
fn utils_update_starts_an_update() {
    match handle_utils_command(&UtilsCommand::Update, "1.2.3", "arm", true) {
        UtilsTask::Update(u) => {
            assert_eq!(u.work, UpdateWork::FindInPath);
            assert_eq!(u.current_version, "1.2.3");
            assert_eq!(u.build_target, "arm");
            assert!(u.windows);
        }
        other => panic!("not an update: {:?}", other),
    }
}

#[test]
fn utils_repair_starts_a_repair_or_refuses() {
    let repair = |target: &str| UtilsCommand::Repair {
        target: target.to_string(),
        yes: true,
        force: false,
    };
    match handle_utils_command(&repair("pip"), "1.2.3", "arm", false) {
        UtilsTask::Repair(r) => {
            assert_eq!(r.work, RepairWork::RequireWorkspace);
            assert!(r.yes);
            assert!(!r.force);
        }
        other => panic!("not a repair: {:?}", other),
    }
    assert_eq!(
        handle_utils_command(&repair("gem"), "1.2.3", "arm", false),
        UtilsTask::Say(say(
            Level::Error,
            "Unknown repair target 'gem'. Supported targets: pip (e.g. 'cim utils repair -t pip')."
        ))
    );
}
