use multiclaw::skill_pack::ZipEntryAction;
use multiclaw::zip_extract::extract_plan;
use std::io::Write;

fn archive() -> Vec<u8> {
    let mut w = zip::ZipWriter::new(std::io::Cursor::new(Vec::new()));
    let opts = zip::write::SimpleFileOptions::default();
    w.add_directory("pkg/", opts).unwrap();
    w.start_file("pkg/SKILL.md", opts).unwrap();
    w.write_all(b"# Skill\n").unwrap();
    w.start_file("../evil.txt", opts).unwrap();
    w.write_all(b"nope").unwrap();
    w.finish().unwrap().into_inner()
}

#[test]
fn extract_plan_follows_entries() {
    let plan = extract_plan(archive(), "/tmp/x").unwrap();
    assert_eq!(plan.len(), 3);
    match &plan[0].action {
        ZipEntryAction::CreateDir(d) => assert_eq!(d, "/tmp/x/pkg/"),
        other => panic!("unexpected {:?}", other),
    }
    match &plan[1].action {
        ZipEntryAction::WriteFile(parent, path) => {
            assert_eq!(path, "/tmp/x/pkg/SKILL.md");
            assert_eq!(parent.as_deref(), Some("/tmp/x/pkg"));
        }
        other => panic!("unexpected {:?}", other),
    }
    assert_eq!(plan[1].data, b"# Skill\n".to_vec());
    assert!(matches!(plan[2].action, ZipEntryAction::Skip));
    assert!(plan[2].data.is_empty());
}

#[test]
fn extract_plan_refuses_non_zip() {
    let err = extract_plan(b"not a zip".to_vec(), "/tmp/x").unwrap_err();
    assert!(!err.message.is_empty());
}

#[test]
fn extract_plan_of_empty_archive_is_empty() {
    let w = zip::ZipWriter::new(std::io::Cursor::new(Vec::new()));
    let bytes = w.finish().unwrap().into_inner();
    let plan = extract_plan(bytes, "/tmp/x").unwrap();
    assert!(plan.is_empty());
}

#[test]
fn extract_plan_refuses_damaged_file_data() {
    let mut w = zip::ZipWriter::new(std::io::Cursor::new(Vec::new()));
    let opts = zip::write::SimpleFileOptions::default()
        .compression_method(zip::CompressionMethod::Stored);
    w.start_file("pkg/SKILL.md", opts).unwrap();
    w.write_all(b"# Skill body\n").unwrap();
    let mut bytes = w.finish().unwrap().into_inner();
    let at = bytes
        .windows(b"# Skill body".len())
        .position(|s| s == b"# Skill body")
        .unwrap();
    bytes[at] = b'!';
    assert!(extract_plan(bytes, "/tmp/x").is_err());
}

#[test]
fn extract_plan_skips_unsafe_entry_without_reading_it() {
    let mut w = zip::ZipWriter::new(std::io::Cursor::new(Vec::new()));
    let opts = zip::write::SimpleFileOptions::default()
        .compression_method(zip::CompressionMethod::Stored);
    w.start_file("../evil.txt", opts).unwrap();
    w.write_all(b"payload").unwrap();
    let mut bytes = w.finish().unwrap().into_inner();
    let at = bytes.windows(7).position(|s| s == b"payload").unwrap();
    bytes[at] = b'!';
    let plan = extract_plan(bytes, "/tmp/x").unwrap();
    assert_eq!(plan.len(), 1);
    assert!(matches!(plan[0].action, ZipEntryAction::Skip));
}
