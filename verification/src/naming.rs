use vstd::prelude::*;
use vstd::string::*;

verus! {

/// The name of the directory, below the application's data directory, that
/// holds the images.
pub const TEMP_DIR_NAME: &'static str = "temp";

/// The extension of every image file, whatever the image is.
pub const IMAGE_EXTENSION: &'static str = ".png";

/// A digit of lower-case hexadecimal.
pub open spec fn is_lower_hex(c: char) -> bool {
    ('0' <= c && c <= '9') || ('a' <= c && c <= 'f')
}

/// The text of a random (version 4) UUID: 32 lower-case hexadecimal digits
/// in groups of 8, 4, 4, 4 and 12 with a hyphen between groups, the third
/// group beginning with `4` and the fourth with `8`, `9`, `a` or `b`.
pub open spec fn is_uuid_text(id: Seq<char>) -> bool {
    &&& id.len() == 36
    &&& forall|i: int|
        0 <= i < 36 ==> if i == 8 || i == 13 || i == 18 || i == 23 {
            #[trigger] id[i] == '-'
        } else {
            is_lower_hex(id[i])
        }
    &&& id[14] == '4'
    &&& (id[19] == '8' || id[19] == '9' || id[19] == 'a' || id[19] == 'b')
}

/// Draws a random UUID with `uuid::Uuid::new_v4` and renders it as that
/// type displays itself.
///
/// Trusted: the text has the shape of a version 4 UUID in hyphenated
/// lower-case form. Which UUID it is, is left open: it is random, and two
/// calls need not agree. The call ends the process when the operating system
/// has no random bytes to give.
#[verifier::external_body]
fn fresh_uuid_text() -> (id: String)
    ensures
        is_uuid_text(id@),
{
    uuid::Uuid::new_v4().to_string()
}

/// The file name for the image with identifier `id`: the identifier, then
/// the extension.
pub open spec fn image_file_name(id: Seq<char>) -> Seq<char> {
    id + IMAGE_EXTENSION@
}

/// Builds the file name for the image with identifier `id`.
pub fn name_image_file(id: &str) -> (name: String)
    ensures
        name@ == image_file_name(id@),
{
    let mut name = id.to_owned();
    name.append(IMAGE_EXTENSION);
    name
}

/// The file name for a new image: a random UUID drawn for it, then the
/// extension.
pub fn fresh_file_name() -> (name: String)
    ensures
        exists|id: Seq<char>| is_uuid_text(id) && name@ == image_file_name(id),
{
    let id = fresh_uuid_text();
    name_image_file(id.as_str())
}

/// A name that denotes an entry directly inside the directory it is joined
/// to: it has no path separator in it and does not begin with a dot, so it
/// is neither `.` nor `..` nor a path that leads elsewhere.
pub open spec fn is_plain_file_name(name: Seq<char>) -> bool {
    &&& name.len() > 0
    &&& name[0] != '.'
    &&& forall|i: int| 0 <= i < name.len() ==> #[trigger] name[i] != '/' && name[i] != '\\'
}

/// The file name made from a UUID is 40 characters long, ends in `.png`
/// and is a plain file name: the image lands directly inside the temporary
/// directory.
pub proof fn lemma_fresh_name_is_plain(id: Seq<char>)
    requires
        is_uuid_text(id),
    ensures
        image_file_name(id).len() == 40,
        image_file_name(id).subrange(0, 36) == id,
        image_file_name(id).subrange(36, 40) == IMAGE_EXTENSION@,
        is_plain_file_name(image_file_name(id)),
{
    reveal_strlit(".png");
    let name = image_file_name(id);
    assert(name.subrange(0, 36) =~= id);
    assert(name.subrange(36, 40) =~= IMAGE_EXTENSION@);
    assert(is_lower_hex(id[0]));
    assert forall|i: int| 0 <= i < name.len() implies #[trigger] name[i] != '/' && name[i]
        != '\\' by {
        if i < 36 {
            if !(i == 8 || i == 13 || i == 18 || i == 23) {
                assert(is_lower_hex(id[i]));
            }
        }
    }
}

/// Two images get the same file name only if they have the same
/// identifier.
pub proof fn lemma_file_names_differ(first: Seq<char>, second: Seq<char>)
    requires
        first != second,
    ensures
        image_file_name(first) != image_file_name(second),
{
    let extension = IMAGE_EXTENSION@;
    if first + extension == second + extension {
        assert((first + extension).len() == first.len() + extension.len());
        assert((second + extension).len() == second.len() + extension.len());
        assert((first + extension).subrange(0, first.len() as int) =~= first);
        assert((second + extension).subrange(0, second.len() as int) =~= second);
    }
}

} // verus!
