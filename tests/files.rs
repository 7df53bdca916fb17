use telebot::error::ErrorKind;
use telebot::file::{FileEntity, FileList, FileWithCaption, MediaFile};
use telebot::File;

#[test]
fn name_of_memory_file_is_attachment() {
    let f = File::Memory { name: String::from("pic.png"), source: vec![1, 2, 3] };
    assert_eq!(f.name(), "attach://pic.png");
    assert_eq!(f.part_name().as_deref(), Some("pic.png"));
}

#[test]
fn name_of_disk_file_uses_file_name() {
    let f = File::Disk { path: String::from("/tmp/some/dir/doc.pdf") };
    assert_eq!(f.name(), "attach://doc.pdf");
    assert_eq!(f.part_name().as_deref(), Some("doc.pdf"));
}

#[test]
fn name_of_stored_and_url_files() {
    assert_eq!(File::Telegram(String::from("AgADBAAD")).name(), "AgADBAAD");
    assert_eq!(File::Url(String::from("https://example.org/a.jpg")).name(), "https://example.org/a.jpg");
    assert!(File::Telegram(String::from("x")).part_name().is_none());
    assert!(File::Url(String::from("y")).part_name().is_none());
}

#[test]
fn disk_path_without_file_name() {
    let f = File::Disk { path: String::from("/") };
    assert_eq!(f.name(), "attach://");
    assert!(f.part_name().is_none());
}

#[test]
fn try_from_path_and_memory() {
    match File::try_from("photos/cat.jpg").unwrap() {
        File::Disk { path } => assert_eq!(path, "photos/cat.jpg"),
        _ => panic!("expected a file on disk"),
    }
    let e = File::try_from("..").unwrap_err();
    assert_eq!(e.kind(), ErrorKind::NoFile);
    match File::try_from(("mem.txt", vec![104u8, 105])).unwrap() {
        File::Memory { name, source } => {
            assert_eq!(name, "mem.txt");
            assert_eq!(source, vec![104u8, 105]);
        }
        _ => panic!("expected a file in memory"),
    }
    match File::try_from(File::Url(String::from("u"))).unwrap() {
        File::Url(u) => assert_eq!(u, "u"),
        _ => panic!("expected the same file"),
    }
}

#[test]
fn metadata_of_no_file() {
    let list = FileList(Vec::new());
    assert!(list.to_metadata().is_none());
    assert!(list.into_files().is_none());
}

#[test]
fn metadata_of_single_file() {
    let list = FileList(vec![FileWithCaption::new_empty(File::Telegram(String::from("id1")))]);
    match list.to_metadata() {
        Some(MediaFile::SingleFile(s)) => assert_eq!(s, "id1"),
        _ => panic!("expected a single file"),
    }
}

#[test]
fn metadata_of_several_files() {
    let mut list = FileList(Vec::new());
    list.push(FileWithCaption::new(
        File::Memory { name: String::from("a.png"), source: vec![] },
        String::from("first"),
        String::from("HTML"),
    ));
    list.push(FileWithCaption::new_empty(File::Url(String::from("https://x/b.png"))));
    match list.to_metadata() {
        Some(MediaFile::MultipleFiles(es)) => {
            assert_eq!(es.len(), 2);
            match &es[0] {
                FileEntity::Photo { type_, media, caption, parse_mode } => {
                    assert_eq!(*type_, "photo");
                    assert_eq!(media, "attach://a.png");
                    assert_eq!(caption.as_deref(), Some("first"));
                    assert_eq!(parse_mode.as_deref(), Some("HTML"));
                }
                _ => panic!("expected a photo entry"),
            }
            match &es[1] {
                FileEntity::Photo { type_, media, caption, parse_mode } => {
                    assert_eq!(*type_, "photo");
                    assert_eq!(media, "https://x/b.png");
                    assert!(caption.is_none());
                    assert!(parse_mode.is_none());
                }
                _ => panic!("expected a photo entry"),
            }
        }
        _ => panic!("expected a media group"),
    }
    let files = list.into_files().unwrap();
    assert_eq!(files.len(), 2);
    assert_eq!(files[0].name(), "attach://a.png");
    assert_eq!(files[1].name(), "https://x/b.png");
}

#[test]
fn file_with_caption_constructors() {
    let f = FileWithCaption::new(File::Telegram(String::from("t")), String::from("c"), String::from("Markdown"));
    assert_eq!(f.caption.as_deref(), Some("c"));
    assert_eq!(f.parse_mode.as_deref(), Some("Markdown"));
    let g = FileWithCaption::new_empty(File::Telegram(String::from("t")));
    assert!(g.caption.is_none() && g.parse_mode.is_none());
}
