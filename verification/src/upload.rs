//! The upload form of a new post: which multipart fields it reads, how each
//! field's text is taken, where the picture is stored, and the post that
//! results.

use vstd::prelude::*;
use crate::post::{Comment, PostStats, Resolution, Source, YuriPosts};
use crate::object_id::ascii_lower;
use crate::text::{decimal, decimal_text, decode_utf8_text, split_tags, tag_list, text_equals};

verus! {

/// The multipart fields that an upload understands.
#[derive(Debug, Clone, Copy, PartialEq, Eq, Structural)]
pub enum FormField {
    Title,
    Author,
    Op,
    Material,
    Link,
    Tags,
    Filename,
    Image,
    Ignored,
}

/// Why an upload cannot go on.
#[derive(Debug, Clone, Copy, PartialEq, Eq, Structural)]
pub enum FormError {
    /// A text field's first chunk is not valid UTF-8.
    InvalidUtf8,
    /// The picture's size cannot be read from its bytes.
    UnreadableImage,
}

/// The field that a multipart field name stands for.
pub open spec fn field_named(name: Seq<char>) -> FormField {
    if name == "title"@ {
        FormField::Title
    } else if name == "author"@ {
        FormField::Author
    } else if name == "op"@ {
        FormField::Op
    } else if name == "material"@ {
        FormField::Material
    } else if name == "link"@ {
        FormField::Link
    } else if name == "tags"@ {
        FormField::Tags
    } else if name == "filename"@ {
        FormField::Filename
    } else if name == "image"@ {
        FormField::Image
    } else {
        FormField::Ignored
    }
}

/// Reads a multipart field name.
pub fn form_field(name: &str) -> (r: FormField)
    ensures
        r == field_named(name@),
{
    if text_equals(name, "title") {
        FormField::Title
    } else if text_equals(name, "author") {
        FormField::Author
    } else if text_equals(name, "op") {
        FormField::Op
    } else if text_equals(name, "material") {
        FormField::Material
    } else if text_equals(name, "link") {
        FormField::Link
    } else if text_equals(name, "tags") {
        FormField::Tags
    } else if text_equals(name, "filename") {
        FormField::Filename
    } else if text_equals(name, "image") {
        FormField::Image
    } else {
        FormField::Ignored
    }
}

/// A character that file names may not hold.
pub open spec fn is_name_illegal(c: char) -> bool {
    ||| c == '/'
    ||| c == '?'
    ||| c == '<'
    ||| c == '>'
    ||| c == '\\'
    ||| c == ':'
    ||| c == '*'
    ||| c == '|'
    ||| c == '"'
}

/// A C0 or C1 control character.
pub open spec fn is_control(c: char) -> bool {
    let u: u32 = c as u32;
    u <= 0x1f || (0x80 <= u <= 0x9f)
}

/// `s` without the characters that file names may not hold and without
/// control characters.
pub open spec fn strip_forbidden(s: Seq<char>) -> Seq<char>
    decreases s.len(),
{
    if s.len() == 0 {
        s
    } else {
        let rest = strip_forbidden(s.drop_last());
        if is_name_illegal(s.last()) || is_control(s.last()) {
            rest
        } else {
            rest.push(s.last())
        }
    }
}

/// `s` is made of dots only, and is not empty.
pub open spec fn is_all_dots(s: Seq<char>) -> bool {
    &&& s.len() > 0
    &&& forall|i: int| 0 <= i < s.len() ==> #[trigger] s[i] == '.'
}

/// `s`, or nothing where `s` is made of dots only.
pub open spec fn clear_dots(s: Seq<char>) -> Seq<char> {
    if is_all_dots(s) {
        Seq::<char>::empty()
    } else {
        s
    }
}

/// `r` is the longest beginning of `s` that takes at most 255 bytes in
/// UTF-8.
pub open spec fn is_cut_to_255(r: Seq<char>, s: Seq<char>) -> bool {
    &&& r.len() <= s.len()
    &&& r == s.take(r.len() as int)
    &&& vstd::utf8::encode_utf8(r).len() <= 255
    &&& r.len() < s.len() ==> vstd::utf8::encode_utf8(s.take(r.len() + 1int)).len() > 255
}

/// An ASCII decimal digit.
pub open spec fn is_ascii_digit(c: char) -> bool {
    0x30 <= (c as u32) <= 0x39
}

/// A name that may be a Windows device name: `con`, `prn`, `aux`, `nul`, or
/// `com` or `lpt` and a digit, in any case, alone or followed by a dot.
pub open spec fn is_device_name_like(s: Seq<char>) -> bool {
    let l = s.map_values(|c: char| ascii_lower(c));
    ||| {
        &&& l.len() >= 3
        &&& l.take(3) == "con"@ || l.take(3) == "prn"@ || l.take(3) == "aux"@ || l.take(3)
            == "nul"@
        &&& l.len() == 3 || l[3] == '.'
    }
    ||| {
        &&& l.len() >= 4
        &&& l.take(3) == "com"@ || l.take(3) == "lpt"@
        &&& is_ascii_digit(l[3])
        &&& l.len() == 4 || l[4] == '.'
    }
}

/// What `sanitize` gives back for `name`: the name without the characters
/// that file names may not hold and without control characters, emptied
/// where it is made of dots only, and cut to 255 bytes. Where it was built
/// for Windows, a name that is then a device name becomes empty too.
pub open spec fn is_sanitized_from(r: Seq<char>, name: Seq<char>) -> bool {
    let s = clear_dots(strip_forbidden(name));
    ||| is_cut_to_255(r, s)
    ||| r.len() == 0 && is_device_name_like(s)
}

/// `sanitize_filename::sanitize`. Claimed, as its source shows: it removes
/// every match of `[/?<>\\:*|":]` and of `[\x00-\x1f\x80-\x9f]`, empties a name
/// that is all dots (`^\.+$`), cuts the name at the last character boundary
/// at or before 255 bytes, and, only where built for Windows, empties a name
/// that matches `^(con|prn|aux|nul|com[0-9]|lpt[0-9])(\..*)?$` in any case
/// (the claim covers it by the wider `is_device_name_like`).
#[verifier::external_body]
fn sanitize_file_name(name: String) -> (r: String)
    ensures
        is_sanitized_from(r@, name@),
{
    sanitize_filename::sanitize(name)
}

/// The width and height that the `image` crate reads from a picture's
/// bytes, `None` where it cannot guess the format or read the size.
pub uninterp spec fn image_dimensions_of(data: Seq<u8>) -> Option<(u32, u32)>;

/// `image::io::Reader::with_guessed_format` then `into_dimensions`, on the
/// bytes held in memory. Claimed: the result is the one that those calls
/// give for the bytes, named `image_dimensions_of`.
#[verifier::external_body]
fn read_image_dimensions(data: &[u8]) -> (r: Option<(u32, u32)>)
    ensures
        r == image_dimensions_of(data@),
{
    match image::io::Reader::new(std::io::Cursor::new(data)).with_guessed_format() {
        Ok(reader) => match reader.into_dimensions() {
            Ok(size) => Some(size),
            Err(_) => None,
        },
        Err(_) => None,
    }
}

/// Whether the size of the picture held in `data` can be read.
pub fn image_readable(data: &[u8]) -> (r: bool)
    ensures
        r == (image_dimensions_of(data@) is Some),
{
    read_image_dimensions(data).is_some()
}

/// `chrono::Utc::now().timestamp()`: the current time in seconds since the
/// Unix epoch. Nothing is claimed of the value.
#[verifier::external_body]
fn clock_timestamp() -> (t: i64) {
    chrono::Utc::now().timestamp()
}

/// Where an uploaded picture is stored.
pub open spec fn image_path(author: Seq<char>, time: u64, filename: Seq<char>) -> Seq<char> {
    "./assets/posts/"@ + author + seq!['-'] + decimal(time as nat) + seq!['-'] + filename
}

/// What the fields of an upload hold while it is read.
pub struct PostForm {
    pub title: String,
    pub author: String,
    pub op: String,
    pub material: String,
    pub link: Option<String>,
    pub width: usize,
    pub height: usize,
    pub tags: Option<Vec<String>>,
    pub filename: String,
    pub path: String,
    pub time: u64,
}

/// A tag list as `split_tags` gives it for `text`.
pub open spec fn holds_tags(v: Vec<String>, text: Seq<char>) -> bool {
    &&& v@.len() == tag_list(text).len()
    &&& forall|k: int| 0 <= k < v@.len() ==> #[trigger] v@[k]@ == tag_list(text)[k]
}

/// `after` is `before` with the text of `field` taken in, as the upload does:
/// an empty `op` becomes `an`, an empty link or tag line none, tags
/// are split at commas and trimmed, and a file name is sanitized.
pub open spec fn text_applied(before: PostForm, after: PostForm, field: FormField, text: Seq<char>) -> bool {
    &&& if field is Title { after.title@ == text } else { after.title == before.title }
    &&& if field is Author { after.author@ == text } else { after.author == before.author }
    &&& if field is Op {
        after.op@ == (if text.len() == 0 { "an"@ } else { text })
    } else {
        after.op == before.op
    }
    &&& if field is Material { after.material@ == text } else { after.material == before.material }
    &&& if field is Link {
        if text.len() == 0 {
            after.link is None
        } else {
            after.link matches Some(l) && l@ == text
        }
    } else {
        after.link == before.link
    }
    &&& if field is Tags {
        if text.len() == 0 {
            after.tags is None
        } else {
            after.tags matches Some(v) && holds_tags(v, text)
        }
    } else {
        after.tags == before.tags
    }
    &&& if field is Filename {
        is_sanitized_from(after.filename@, text)
    } else {
        after.filename == before.filename
    }
    &&& after.width == before.width
    &&& after.height == before.height
    &&& after.path == before.path
    &&& after.time == before.time
}

/// The text fields are kept as they were sent: a title, an author, a
/// material, a non-empty `op` and a non-empty link are stored exactly as the
/// field's text, whatever its length or content; an empty `op` is stored as
/// `an` and an empty link as none.
pub proof fn lemma_text_taken_verbatim(a: PostForm, b: PostForm, field: FormField, text: Seq<char>)
    requires
        text_applied(a, b, field, text),
    ensures
        field is Title ==> b.title@ == text,
        field is Author ==> b.author@ == text,
        field is Material ==> b.material@ == text,
        field is Op && text.len() > 0 ==> b.op@ == text,
        field is Op && text.len() == 0 ==> b.op@ == seq!['a', 'n'],
        field is Link && text.len() > 0 ==> (b.link matches Some(l) && l@ == text),
        field is Link && text.len() == 0 ==> b.link is None,
        !(field is Title) ==> b.title == a.title,
        !(field is Link) ==> b.link == a.link,
{
    reveal_strlit("an");
}

/// A later value of a text field replaces an earlier one: taking in `first`
/// and then `second` for the same field leaves the form as taking in
/// `second` alone would.
pub proof fn lemma_later_text_wins(
    a: PostForm,
    b: PostForm,
    c: PostForm,
    field: FormField,
    first: Seq<char>,
    second: Seq<char>,
)
    requires
        text_applied(a, b, field, first),
        text_applied(b, c, field, second),
    ensures
        text_applied(a, c, field, second),
{
}

/// The fields that hold text.
pub open spec fn is_text_field(f: FormField) -> bool {
    !(f is Image) && !(f is Ignored)
}

/// Whether a field holds text.
pub fn is_text(f: FormField) -> (r: bool)
    ensures
        r == is_text_field(f),
{
    match f {
        FormField::Image => false,
        FormField::Ignored => false,
        _ => true,
    }
}

/// The bytes of a chunk, if any.
pub open spec fn chunk_view(chunk: Option<&[u8]>) -> Option<Seq<u8>> {
    match chunk {
        Some(b) => Some(b@),
        None => None,
    }
}

/// `b` is `a` with its picture's path fixed from the author, the upload time
/// and the file name.
pub open spec fn path_fixed(a: PostForm, b: PostForm) -> bool {
    &&& b.path@ == image_path(a.author@, a.time, a.filename@)
    &&& b.title == a.title
    &&& b.author == a.author
    &&& b.op == a.op
    &&& b.material == a.material
    &&& b.link == a.link
    &&& b.width == a.width
    &&& b.height == a.height
    &&& b.tags == a.tags
    &&& b.filename == a.filename
    &&& b.time == a.time
}

/// `b` is `a` with the picture's width and height taken from `size`.
pub open spec fn size_set(a: PostForm, size: (u32, u32), b: PostForm) -> bool {
    &&& b.width == size.0 as usize
    &&& b.height == size.1 as usize
    &&& b.title == a.title
    &&& b.author == a.author
    &&& b.op == a.op
    &&& b.material == a.material
    &&& b.link == a.link
    &&& b.tags == a.tags
    &&& b.filename == a.filename
    &&& b.path == a.path
    &&& b.time == a.time
}

/// `b` is `a` with the picture size read from `data`.
pub open spec fn size_taken(a: PostForm, data: Seq<u8>, b: PostForm) -> bool {
    &&& image_dimensions_of(data) matches Some(d) && b.width == d.0 as usize && b.height == d.1 as usize
    &&& b.title == a.title
    &&& b.author == a.author
    &&& b.op == a.op
    &&& b.material == a.material
    &&& b.link == a.link
    &&& b.tags == a.tags
    &&& b.filename == a.filename
    &&& b.path == a.path
    &&& b.time == a.time
}

/// `b` is `a` after a picture field with bytes `data`: the path fixed, and
/// the size read.
pub open spec fn picture_taken(a: PostForm, data: Seq<u8>, b: PostForm) -> bool {
    &&& image_dimensions_of(data) matches Some(d) && b.width == d.0 as usize && b.height == d.1 as usize
    &&& b.path@ == image_path(a.author@, a.time, a.filename@)
    &&& b.title == a.title
    &&& b.author == a.author
    &&& b.op == a.op
    &&& b.material == a.material
    &&& b.link == a.link
    &&& b.tags == a.tags
    &&& b.filename == a.filename
    &&& b.time == a.time
}

/// Fixing the picture's path and then reading its size takes the picture in.
pub proof fn lemma_picture_steps(a: PostForm, b: PostForm, c: PostForm, data: Seq<u8>)
    requires
        path_fixed(a, b),
        size_taken(b, data, c),
    ensures
        picture_taken(a, data, c),
{
}

/// `b` is `a` after one multipart field of the upload: `data` is the first
/// chunk of a text field, or all the bytes of a picture (none read as no
/// bytes). An unknown field changes nothing; a text field without a chunk
/// changes nothing; a text field whose chunk is not UTF-8, or a picture whose
/// size cannot be read, stops the upload and has no next form.
pub open spec fn field_step(a: PostForm, field: FormField, data: Option<Seq<u8>>, b: PostForm) -> bool {
    match field {
        FormField::Ignored => b == a,
        FormField::Image => picture_taken(
            a,
            match data {
                Some(d) => d,
                None => Seq::<u8>::empty(),
            },
            b,
        ),
        _ => match data {
            None => b == a,
            Some(bytes) => vstd::utf8::valid_utf8(bytes) && text_applied(
                a,
                b,
                field,
                vstd::utf8::decode_utf8(bytes),
            ),
        },
    }
}

/// Reading the multipart fields `fields` in order can take the form from `a`
/// to `z`.
pub open spec fn upload_reaches(a: PostForm, fields: Seq<(FormField, Option<Seq<u8>>)>, z: PostForm) -> bool
    decreases fields.len(),
{
    if fields.len() == 0 {
        z == a
    } else {
        exists|b: PostForm|
            #[trigger] field_step(a, fields[0].0, fields[0].1, b) && upload_reaches(
                b,
                fields.drop_first(),
                z,
            )
    }
}

/// An unknown field, wherever it stands among the fields of an upload and
/// whatever it holds, changes nothing of the upload's outcome.
pub proof fn lemma_unknown_field_changes_nothing(
    a: PostForm,
    fields: Seq<(FormField, Option<Seq<u8>>)>,
    i: int,
    data: Option<Seq<u8>>,
    z: PostForm,
)
    requires
        0 <= i <= fields.len(),
    ensures
        upload_reaches(a, fields.insert(i, (FormField::Ignored, data)), z) <==> upload_reaches(
            a,
            fields,
            z,
        ),
    decreases i,
{
    let ins = fields.insert(i, (FormField::Ignored, data));
    if i == 0 {
        assert(ins[0] == (FormField::Ignored, data));
        assert(ins.drop_first() =~= fields);
        if upload_reaches(a, fields, z) {
            assert(field_step(a, ins[0].0, ins[0].1, a));
        }
    } else {
        assert(ins[0] == fields[0]);
        assert(ins.drop_first() =~= fields.drop_first().insert(i - 1, (FormField::Ignored, data)));
        assert forall|b: PostForm|
            upload_reaches(b, ins.drop_first(), z) <==> upload_reaches(
                b,
                fields.drop_first(),
                z,
            ) by {
            lemma_unknown_field_changes_nothing(b, fields.drop_first(), i - 1, data, z);
        }
        if upload_reaches(a, ins, z) {
            let b = choose|b: PostForm|
                #[trigger] field_step(a, ins[0].0, ins[0].1, b) && upload_reaches(
                    b,
                    ins.drop_first(),
                    z,
                );
            assert(field_step(a, fields[0].0, fields[0].1, b));
        }
        if upload_reaches(a, fields, z) {
            let b = choose|b: PostForm|
                #[trigger] field_step(a, fields[0].0, fields[0].1, b) && upload_reaches(
                    b,
                    fields.drop_first(),
                    z,
                );
            assert(field_step(a, ins[0].0, ins[0].1, b));
        }
    }
}

impl PostForm {
    /// The form before any field was read: empty texts, no link or tags,
    /// and a 480 by 640 picture size.
    pub open spec fn is_blank(&self) -> bool {
        &&& self.title@.len() == 0
        &&& self.author@.len() == 0
        &&& self.op@.len() == 0
        &&& self.material@.len() == 0
        &&& self.link is None
        &&& self.width == 480
        &&& self.height == 640
        &&& self.tags is None
        &&& self.filename@.len() == 0
        &&& self.path@.len() == 0
    }

    /// A blank form for an upload made at `time`.
    pub fn new(time: u64) -> (r: PostForm)
        ensures
            r.is_blank(),
            r.time == time,
    {
        PostForm {
            title: String::new(),
            author: String::new(),
            op: String::new(),
            material: String::new(),
            link: None,
            width: 480,
            height: 640,
            tags: None,
            filename: String::new(),
            path: String::new(),
            time,
        }
    }

    /// A blank form for an upload made at `timestamp` seconds since the
    /// epoch, kept as an unsigned number as the upload does.
    pub fn begin(timestamp: i64) -> (r: PostForm)
        ensures
            r.is_blank(),
            r.time == timestamp as u64,
    {
        PostForm::new(timestamp as u64)
    }

    /// A blank form for an upload made now.
    pub fn begin_now() -> (r: PostForm)
        ensures
            r.is_blank(),
    {
        PostForm::begin(clock_timestamp())
    }

    /// Takes in the first chunk of a text field, as the upload does; a field
    /// without a chunk, the picture and unknown fields change nothing and
    /// are not read. Fails, changing nothing, where a text field's chunk is
    /// not UTF-8.
    pub fn apply_text(&mut self, field: FormField, chunk: Option<&[u8]>) -> (r: Result<(), FormError>)
        ensures
            field is Image || field is Ignored || chunk is None ==> r is Ok && *final(self) == *old(
                self,
            ),
            is_text_field(field) && chunk is Some ==> {
                let b = chunk->0@;
                &&& (r is Ok <==> vstd::utf8::valid_utf8(b))
                &&& r is Ok ==> text_applied(
                    *old(self),
                    *final(self),
                    field,
                    vstd::utf8::decode_utf8(b),
                )
                &&& r is Err ==> r == Err::<(), FormError>(FormError::InvalidUtf8) && *final(self)
                    == *old(self)
            },
            r is Ok && !(field is Image) ==> field_step(*old(self), field, chunk_view(chunk), *final(self)),
    {
        if !is_text(field) {
            return Ok(());
        }
        let bytes = match chunk {
            None => return Ok(()),
            Some(b) => b,
        };
        let text = match decode_utf8_text(bytes) {
            None => return Err(FormError::InvalidUtf8),
            Some(t) => t,
        };
        match field {
            FormField::Title => {
                self.title = text;
            },
            FormField::Author => {
                self.author = text;
            },
            FormField::Op => {
                if text.as_str().is_empty() {
                    self.op = String::from_str("an");
                } else {
                    self.op = text;
                }
            },
            FormField::Material => {
                self.material = text;
            },
            FormField::Link => {
                if text.as_str().is_empty() {
                    self.link = None;
                } else {
                    self.link = Some(text);
                }
            },
            FormField::Tags => {
                if text.as_str().is_empty() {
                    self.tags = None;
                } else {
                    let v = split_tags(text.as_str());
                    self.tags = Some(v);
                }
            },
            FormField::Filename => {
                self.filename = sanitize_file_name(text);
            },
            FormField::Image => {},
            FormField::Ignored => {},
        }
        Ok(())
    }

    /// Fixes where the picture is stored, from the author, the upload time and
    /// the file name read so far, and returns that path.
    pub fn begin_image(&mut self) -> (r: String)
        ensures
            r@ == final(self).path@,
            path_fixed(*old(self), *final(self)),
    {
        let mut p = String::from_str("./assets/posts/");
        p.append(self.author.as_str());
        p.append("-");
        let digits = decimal_text(self.time);
        p.append(digits.as_str());
        p.append("-");
        p.append(self.filename.as_str());
        proof {
            reveal_strlit("-");
            assert(p@ =~= image_path(self.author@, self.time, self.filename@));
        }
        self.path = p.clone();
        p
    }

    /// Takes the picture's size from its bytes, which must be readable (test
    /// them with `image_readable`).
    pub fn finish_image(&mut self, data: &[u8])
        requires
            image_dimensions_of(data@) is Some,
        ensures
            size_taken(*old(self), data@, *final(self)),
    {
        let size = read_image_dimensions(data).unwrap();
        self.set_size(size);
    }

    /// Takes in a picture's width and height.
    pub fn set_size(&mut self, size: (u32, u32))
        ensures
            size_set(*old(self), size, *final(self)),
    {
        self.width = size.0 as usize;
        self.height = size.1 as usize;
    }

    /// Takes the picture's size from its bytes where it can be read; fails,
    /// changing nothing, where it cannot.
    pub fn try_finish_image(&mut self, data: &[u8]) -> (r: Result<(), FormError>)
        ensures
            r is Ok <==> image_dimensions_of(data@) is Some,
            r is Ok ==> size_taken(*old(self), data@, *final(self)),
            r is Err ==> r == Err::<(), FormError>(FormError::UnreadableImage) && *final(self)
                == *old(self),
    {
        if image_readable(data) {
            self.finish_image(data);
            Ok(())
        } else {
            Err(FormError::UnreadableImage)
        }
    }

    /// The post that the upload stores: the fields read, no likes, no views
    /// and no comments.
    pub fn into_post(self) -> (r: YuriPosts)
        ensures
            r.title == self.title,
            r.author == self.author,
            r.op == self.op,
            r.path == self.path,
            r.source.material == self.material,
            r.source.link == self.link,
            r.resolution.width == self.width,
            r.resolution.height == self.height,
            r.time == self.time,
            r.tags == self.tags,
            r.stats.likes == 0,
            r.stats.views == 0,
            r.comments is None,
    {
        YuriPosts {
            title: self.title,
            author: self.author,
            op: self.op,
            path: self.path,
            source: Source { material: self.material, link: self.link },
            resolution: Resolution { width: self.width, height: self.height },
            time: self.time,
            tags: self.tags,
            stats: PostStats { likes: 0, views: 0 },
            comments: None,
        }
    }
}

} // verus!
