use yuri_web::upload::{form_field, image_readable, FormError, FormField, PostForm};

const PNG_3X2: [u8; 68] = [
    0x89, 0x50, 0x4e, 0x47, 0x0d, 0x0a, 0x1a, 0x0a, 0x00, 0x00, 0x00, 0x0d, 0x49, 0x48, 0x44,
    0x52, 0x00, 0x00, 0x00, 0x03, 0x00, 0x00, 0x00, 0x02, 0x08, 0x02, 0x00, 0x00, 0x00, 0x12,
    0x16, 0xf1, 0x4d, 0x00, 0x00, 0x00, 0x0b, 0x49, 0x44, 0x41, 0x54, 0x78, 0x9c, 0x63, 0x60,
    0xc0, 0x04, 0x00, 0x00, 0x14, 0x00, 0x01, 0x7d, 0xfe, 0x1e, 0xee, 0x00, 0x00, 0x00, 0x00,
    0x49, 0x45, 0x4e, 0x44, 0xae, 0x42, 0x60, 0x82,
];

#[test]
fn form_field_reads_names() {
    assert_eq!(form_field("title"), FormField::Title);
    assert_eq!(form_field("author"), FormField::Author);
    assert_eq!(form_field("op"), FormField::Op);
    assert_eq!(form_field("material"), FormField::Material);
    assert_eq!(form_field("link"), FormField::Link);
    assert_eq!(form_field("tags"), FormField::Tags);
    assert_eq!(form_field("filename"), FormField::Filename);
    assert_eq!(form_field("image"), FormField::Image);
    assert_eq!(form_field("Title"), FormField::Ignored);
    assert_eq!(form_field(""), FormField::Ignored);
}

#[test]
fn new_form_is_blank() {
    let f = PostForm::new(42);
    assert_eq!(f.title, "");
    assert_eq!(f.op, "");
    assert_eq!(f.link, None);
    assert_eq!(f.tags, None);
    assert_eq!((f.width, f.height), (480, 640));
    assert_eq!(f.path, "");
    assert_eq!(f.time, 42);
}

#[test]
fn begin_keeps_timestamp_bits() {
    assert_eq!(PostForm::begin(1_700_000_000).time, 1_700_000_000);
    assert_eq!(PostForm::begin(-1).time, u64::MAX);
}

#[test]
fn begin_now_is_blank() {
    let f = PostForm::begin_now();
    assert_eq!(f.author, "");
    assert_eq!((f.width, f.height), (480, 640));
}

#[test]
fn text_fields_are_taken_in() {
    let mut f = PostForm::new(1);
    assert_eq!(f.apply_text(FormField::Title, Some(b"Hello")), Ok(()));
    assert_eq!(f.apply_text(FormField::Author, Some("Yūko".as_bytes())), Ok(()));
    assert_eq!(f.apply_text(FormField::Material, Some(b"manga")), Ok(()));
    assert_eq!(f.apply_text(FormField::Link, Some(b"https://example.org")), Ok(()));
    assert_eq!(f.title, "Hello");
    assert_eq!(f.author, "Yūko");
    assert_eq!(f.material, "manga");
    assert_eq!(f.link.as_deref(), Some("https://example.org"));
}

#[test]
fn empty_op_becomes_an() {
    let mut f = PostForm::new(1);
    f.apply_text(FormField::Op, Some(b"")).unwrap();
    assert_eq!(f.op, "an");
    f.apply_text(FormField::Op, Some(b"me")).unwrap();
    assert_eq!(f.op, "me");
}

#[test]
fn empty_link_and_tags_are_none() {
    let mut f = PostForm::new(1);
    f.apply_text(FormField::Link, Some(b"x")).unwrap();
    f.apply_text(FormField::Link, Some(b"")).unwrap();
    assert_eq!(f.link, None);
    f.apply_text(FormField::Tags, Some(b"")).unwrap();
    assert_eq!(f.tags, None);
}

#[test]
fn tags_are_split_and_trimmed() {
    let mut f = PostForm::new(1);
    f.apply_text(FormField::Tags, Some(b"yuri, cute ,school,")).unwrap();
    assert_eq!(
        f.tags,
        Some(vec!["yuri".to_string(), "cute".to_string(), "school".to_string()])
    );
}

#[test]
fn filename_is_sanitized() {
    let mut f = PostForm::new(1);
    f.apply_text(FormField::Filename, Some(b"../a/b:c.png")).unwrap();
    assert!(!f.filename.contains('/'));
    assert!(!f.filename.contains(':'));
    assert_eq!(f.filename, "..abc.png");
}

#[test]
fn invalid_utf8_is_refused() {
    let mut f = PostForm::new(1);
    f.apply_text(FormField::Title, Some(b"ok")).unwrap();
    assert_eq!(f.apply_text(FormField::Title, Some(&[0xff, 0xfe])), Err(FormError::InvalidUtf8));
    assert_eq!(f.title, "ok");
}

#[test]
fn missing_chunk_and_other_fields_change_nothing() {
    let mut f = PostForm::new(1);
    f.apply_text(FormField::Title, None).unwrap();
    f.apply_text(FormField::Ignored, Some(b"zzz")).unwrap();
    f.apply_text(FormField::Image, Some(b"zzz")).unwrap();
    assert_eq!(f.apply_text(FormField::Ignored, Some(&[0xff, 0xfe])), Ok(()));
    assert_eq!(f.apply_text(FormField::Image, Some(&[0xff])), Ok(()));
    assert_eq!(f.title, "");
    assert_eq!(f.path, "");
}

#[test]
fn later_field_value_wins() {
    let mut f = PostForm::new(1);
    f.apply_text(FormField::Tags, Some(b"a,b")).unwrap();
    f.apply_text(FormField::Tags, Some(b"c")).unwrap();
    assert_eq!(f.tags, Some(vec!["c".to_string()]));
}

#[test]
fn image_path_uses_author_time_and_file() {
    let mut f = PostForm::new(1700000000);
    f.apply_text(FormField::Author, Some(b"anon")).unwrap();
    f.apply_text(FormField::Filename, Some(b"pic.png")).unwrap();
    let p = f.begin_image();
    assert_eq!(p, "./assets/posts/anon-1700000000-pic.png");
    assert_eq!(f.path, p);
}

#[test]
fn image_size_is_read() {
    assert!(image_readable(&PNG_3X2));
    let mut f = PostForm::new(1);
    f.finish_image(&PNG_3X2);
    assert_eq!((f.width, f.height), (3, 2));
    let mut g = PostForm::new(1);
    assert_eq!(g.try_finish_image(&PNG_3X2), Ok(()));
    assert_eq!((g.width, g.height), (3, 2));
}

#[test]
fn unreadable_image_is_refused() {
    assert!(!image_readable(b"not a picture"));
    assert!(!image_readable(b""));
    let mut f = PostForm::new(1);
    assert_eq!(f.try_finish_image(b"not a picture"), Err(FormError::UnreadableImage));
    assert_eq!((f.width, f.height), (480, 640));
}

#[test]
fn clean_filename_is_kept() {
    let mut f = PostForm::new(1);
    f.apply_text(FormField::Filename, Some("chapter 1.png".as_bytes())).unwrap();
    assert_eq!(f.filename, "chapter 1.png");
}

#[test]
fn dotted_filename_becomes_empty() {
    let mut f = PostForm::new(1);
    f.apply_text(FormField::Filename, Some(b"..")).unwrap();
    assert_eq!(f.filename, "");
    f.apply_text(FormField::Filename, Some(b"./.")).unwrap();
    assert_eq!(f.filename, "");
}

#[test]
fn long_filename_is_cut_at_255_bytes() {
    let long = "é".repeat(200);
    let mut f = PostForm::new(1);
    f.apply_text(FormField::Filename, Some(long.as_bytes())).unwrap();
    assert_eq!(f.filename, "é".repeat(127));
    assert!(f.filename.len() <= 255);
}

#[test]
fn post_starts_without_likes_views_or_comments() {
    let mut f = PostForm::new(5);
    f.apply_text(FormField::Title, Some(b"t")).unwrap();
    f.apply_text(FormField::Material, Some(b"m")).unwrap();
    let p = f.into_post();
    assert_eq!(p.title, "t");
    assert_eq!(p.source.material, "m");
    assert_eq!(p.source.link, None);
    assert_eq!((p.resolution.width, p.resolution.height), (480, 640));
    assert_eq!(p.time, 5);
    assert_eq!((p.stats.likes, p.stats.views), (0, 0));
    assert!(p.comments.is_none());
}

#[test]
fn set_size_takes_width_and_height() {
    let mut f = PostForm::new(9);
    f.apply_text(FormField::Title, Some(b"t")).unwrap();
    f.set_size((1920, 1080));
    assert_eq!((f.width, f.height), (1920, 1080));
    assert_eq!(f.title, "t");
    assert_eq!(f.time, 9);
}
