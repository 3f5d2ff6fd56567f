use paster::{
    check_image, choose_content, copy_check, extension_of, finish_image, is_blank, is_image_extension,
    is_image_file, is_white_space, join_path, name_extension, name_stem, plan_copies, plan_copies_at, plan_copy, plan_image,
    plan_image_at, stem_of, text_block, text_output, timestamp, underscore_spaces, Content,
    PasteError, RawImage,
};

const STAMP: &str = "20240102_030405_678";

fn strings(v: &[&str]) -> Vec<String> {
    v.iter().map(|s| s.to_string()).collect()
}

#[test]
fn notes_txt_is_copied_under_a_timestamped_name() {
    let step = plan_copy("notes.txt", "out", STAMP).unwrap();
    assert_eq!(step.source, "notes.txt");
    assert_eq!(step.dest, "out/notes_20240102_030405_678.txt");
    assert_eq!(step.line, "[notes](out/notes_20240102_030405_678.txt)");
}

#[test]
fn notes_txt_planned_with_the_clock() {
    let (steps, err) = plan_copies(&strings(&["notes.txt"]), "out");
    assert_eq!(err, None);
    assert_eq!(steps.len(), 1);
    let dest = &steps[0].dest;
    assert!(dest.starts_with("out/notes_"));
    assert!(dest.ends_with(".txt"));
    assert_eq!(dest.len(), "out/notes_".len() + 19 + ".txt".len());
    assert_eq!(steps[0].line, format!("[notes]({})", dest));
}

#[test]
fn image_files_get_an_image_link() {
    let step = plan_copy("/home/me/Shot One.PNG", "pics/", STAMP).unwrap();
    assert_eq!(step.dest, "pics/Shot_One_20240102_030405_678.PNG");
    assert_eq!(step.line, "![Shot_One](pics/Shot_One_20240102_030405_678.PNG)");
}

#[test]
fn one_step_per_file_in_order() {
    let files = strings(&["a.txt", "dir/b.jpg", "c d.tar.gz"]);
    let stamps = strings(&[STAMP, "20240102_030405_679", "20240102_030405_680"]);
    let (steps, err) = plan_copies_at(&files, "d", &stamps);
    assert_eq!(err, None);
    assert_eq!(steps.len(), 3);
    assert_eq!(steps[0].source, "a.txt");
    assert_eq!(steps[1].source, "dir/b.jpg");
    assert_eq!(steps[2].source, "c d.tar.gz");
    assert_eq!(steps[2].dest, "d/c_d.tar_20240102_030405_680.gz");
    assert_eq!(steps[1].line, "![b](d/b_20240102_030405_679.jpg)");
}

#[test]
fn same_file_under_distinct_stamps_never_collides() {
    let files = strings(&["x/notes.txt", "y/notes.txt"]);
    let stamps = strings(&[STAMP, "20240102_030405_679"]);
    let (steps, err) = plan_copies_at(&files, "out", &stamps);
    assert_eq!(err, None);
    assert_ne!(steps[0].dest, steps[1].dest);
}

#[test]
fn planning_stops_at_the_first_bad_file() {
    let files = strings(&["a.txt", "README", "b.txt"]);
    let stamps = strings(&[STAMP, STAMP, STAMP]);
    let (steps, err) = plan_copies_at(&files, "out", &stamps);
    assert_eq!(steps.len(), 1);
    assert_eq!(err, Some(PasteError::MissingExtension));
}

#[test]
fn missing_filename_is_an_error() {
    assert_eq!(plan_copy("/", "out", STAMP).err(), Some(PasteError::MissingFilename));
    assert_eq!(plan_copy("a/..", "out", STAMP).err(), Some(PasteError::MissingFilename));
}

#[test]
fn missing_extension_is_an_error() {
    assert_eq!(plan_copy("README", "out", STAMP).err(), Some(PasteError::MissingExtension));
    assert_eq!(plan_copy(".bashrc", "out", STAMP).err(), Some(PasteError::MissingExtension));
}

#[test]
fn stems_and_extensions_follow_the_last_dot() {
    assert_eq!(stem_of("a/archive.tar.gz").as_deref(), Some("archive.tar"));
    assert_eq!(extension_of("a/archive.tar.gz").as_deref(), Some("gz"));
    assert_eq!(stem_of(".bashrc").as_deref(), Some(".bashrc"));
    assert_eq!(extension_of(".bashrc"), None);
    assert_eq!(stem_of("foo.").as_deref(), Some("foo"));
    assert_eq!(extension_of("foo.").as_deref(), Some(""));
    assert_eq!(stem_of("dir/name/").as_deref(), Some("name"));
    assert_eq!(stem_of("/"), None);
}

#[test]
fn image_extensions_ignore_case() {
    assert!(is_image_file("a/B.PNG"));
    assert!(is_image_file("photo.jpeg"));
    assert!(is_image_file("x.WebP"));
    assert!(is_image_file("scan.tiff"));
    assert!(!is_image_file("notes.txt"));
    assert!(!is_image_file("png"));
    assert!(!is_image_file(".png"));
    assert!(is_image_extension("gif"));
    assert!(is_image_extension("bmp"));
    assert!(!is_image_extension("GIF"));
    assert!(!is_image_extension("jp"));
}

#[test]
fn spaces_become_underscores() {
    assert_eq!(underscore_spaces(" a b  c"), "_a_b__c");
    assert_eq!(underscore_spaces("plain"), "plain");
}

#[test]
fn joining_paths() {
    assert_eq!(join_path("", "a.txt"), "a.txt");
    assert_eq!(join_path("d/", "a.txt"), "d/a.txt");
    assert_eq!(join_path("d", "a.txt"), "d/a.txt");
    assert_eq!(join_path("d", "/abs"), "/abs");
}

fn raw(width: usize, height: usize, len: usize) -> RawImage {
    RawImage { width, height, bytes: (0..len).map(|i| i as u8).collect() }
}

#[test]
fn two_by_two_image_becomes_a_png() {
    let step = plan_image_at(&raw(2, 2, 16), "out", STAMP).unwrap();
    assert_eq!(step.dest, "out/img_20240102_030405_678.png");
    assert_eq!(step.line, "![](out/img_20240102_030405_678.png)");
    assert_eq!(&step.png[..8], &[0x89, b'P', b'N', b'G', 0x0d, 0x0a, 0x1a, 0x0a]);
    assert_eq!(&step.png[12..16], b"IHDR");
    assert_eq!(&step.png[16..20], &[0, 0, 0, 2]);
    assert_eq!(&step.png[20..24], &[0, 0, 0, 2]);
}

#[test]
fn two_by_two_image_planned_with_the_clock() {
    let step = plan_image(&raw(2, 2, 16), "out").unwrap();
    assert!(step.dest.starts_with("out/img_"));
    assert!(step.dest.ends_with(".png"));
    assert_eq!(step.line, format!("![]({})", step.dest));
}

#[test]
fn wrong_buffer_length_is_refused() {
    assert_eq!(plan_image_at(&raw(2, 2, 15), "out", STAMP).err(), Some(PasteError::InvalidImageBuffer));
    assert_eq!(plan_image_at(&raw(2, 2, 17), "out", STAMP).err(), Some(PasteError::InvalidImageBuffer));
    assert_eq!(plan_image_at(&raw(0, 0, 4), "out", STAMP).err(), Some(PasteError::InvalidImageBuffer));
    assert_eq!(check_image(&raw(usize::MAX, 2, 0)).err(), Some(PasteError::InvalidImageBuffer));
}

#[test]
fn dimensions_beyond_u32_cannot_make_a_grid() {
    let img = raw(1usize << 32, 0, 0);
    assert_eq!(check_image(&img).err(), Some(PasteError::ImageDecodeFailed));
}

#[test]
fn empty_image_is_refused_by_the_encoder() {
    assert_eq!(plan_image_at(&raw(0, 0, 0), "out", STAMP).err(), Some(PasteError::EncodeFailed));
}

#[test]
fn encoder_error_maps_to_encode_failed() {
    let e = image::ImageError::Limits(image::error::LimitError::from_kind(
        image::error::LimitErrorKind::DimensionError,
    ));
    assert_eq!(finish_image(Err(e), "out", STAMP).err(), Some(PasteError::EncodeFailed));
    let step = finish_image(Ok(vec![1, 2, 3]), "out", STAMP).unwrap();
    assert_eq!(step.png, vec![1, 2, 3]);
    assert_eq!(step.dest, "out/img_20240102_030405_678.png");
}

#[test]
fn hello_is_fenced() {
    assert_eq!(text_output("hello").as_deref(), Some("```\nhello\n```\n"));
    assert_eq!(text_block("a\nb"), "```\na\nb\n```\n");
}

#[test]
fn blank_text_prints_nothing() {
    assert_eq!(text_output(""), None);
    assert_eq!(text_output(" \t\r\n\u{a0}\u{3000}"), None);
    assert!(is_blank(""));
    assert!(!is_blank(" x "));
    assert!(is_white_space('\u{2028}'));
    assert!(!is_white_space('\u{200b}'));
}

#[test]
fn file_list_wins_over_text() {
    let c = choose_content(Some(strings(&["notes.txt"])), None, Some("hello".to_string()));
    assert!(matches!(c, Content::FileList(ref f) if f == &strings(&["notes.txt"])));
    let c = choose_content(Some(vec![]), Some(raw(1, 1, 4)), Some("hi".to_string()));
    assert!(matches!(c, Content::FileList(_)));
}

#[test]
fn image_wins_over_text() {
    let c = choose_content(None, Some(raw(1, 1, 4)), Some("hello".to_string()));
    assert!(matches!(c, Content::Image(ref i) if i.width == 1 && i.height == 1));
}

#[test]
fn text_is_last_and_blank_text_is_empty() {
    let c = choose_content(None, None, Some("hello".to_string()));
    assert!(matches!(c, Content::Text(ref t) if t == "hello"));
    assert!(matches!(choose_content(None, None, Some("  \n".to_string())), Content::Empty));
    assert!(matches!(choose_content(None, None, None), Content::Empty));
}

#[test]
fn timestamps_have_the_file_name_shape() {
    let t = timestamp().unwrap();
    assert_eq!(t.len(), 19);
    let b = t.as_bytes();
    assert_eq!(b[8], b'_');
    assert_eq!(b[15], b'_');
    assert!(t.chars().enumerate().all(|(i, c)| i == 8 || i == 15 || c.is_ascii_digit()));
}

#[test]
fn error_messages_are_distinct() {
    assert_eq!(PasteError::MissingFilename.message(), "could not determine filename");
    assert_eq!(PasteError::TimestampFailed.message(), "could not render the current time");
    assert_ne!(PasteError::EncodeFailed.message(), PasteError::InvalidImageBuffer.message());
}

#[test]
fn names_split_at_their_last_dot() {
    assert_eq!(name_stem("a.b.c"), "a.b");
    assert_eq!(name_extension("a.b.c").as_deref(), Some("c"));
    assert_eq!(name_stem(".."), "..");
    assert_eq!(name_extension(".."), None);
    assert_eq!(name_stem(".hidden"), ".hidden");
    assert_eq!(name_extension(".hidden"), None);
    assert_eq!(name_extension("plain"), None);
}

#[test]
fn empty_file_list_plans_nothing() {
    let (steps, err) = plan_copies(&Vec::new(), "out");
    assert!(steps.is_empty());
    assert_eq!(err, None);
}

#[test]
fn a_bad_file_reports_its_own_error() {
    let (steps, err) = plan_copies(&strings(&["a.txt", "README", "b.txt"]), "out");
    assert_eq!(steps.len(), 1);
    assert_eq!(err, Some(PasteError::MissingExtension));
    let (steps, err) = plan_copies(&strings(&["/"]), "out");
    assert!(steps.is_empty());
    assert_eq!(err, Some(PasteError::MissingFilename));
    assert_eq!(copy_check("notes.txt"), None);
    assert_eq!(copy_check("notes"), Some(PasteError::MissingExtension));
}

#[test]
fn one_pixel_image_encodes() {
    let step = plan_image_at(&raw(1, 1, 4), "", STAMP).unwrap();
    assert_eq!(step.dest, "img_20240102_030405_678.png");
    assert_eq!(&step.png[16..24], &[0, 0, 0, 1, 0, 0, 0, 1]);
}
