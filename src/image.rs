//! Image file names: the name a clone is written under, and the variant an
//! image was made with.

use vstd::prelude::*;
use vstd::string::*;
use crate::text::opt_view;
use crate::matching::{captures_all, groups_view, regex_groups};
use crate::text::{chars_of, ends_with, has_suffix, string_of, sub_chars};

verus! {

/// Pattern of a valid image file name; its group is the imager variant.
pub const IMAGE_PATTERN: &'static str = r"^.*/?[^/]+-\d{4,}-\d\d-\d\dT\d{4}\.apt\.(.+)\..+$";

/// The group of the first match of the image pattern in a file name, if it
/// matches.
pub open spec fn image_variant(file: Seq<char>) -> Option<Seq<char>> {
    match regex_groups(IMAGE_PATTERN@, file) {
        Some(ms) => if ms.len() > 0 && ms[0].len() > 0 {
            ms[0][0]
        } else {
            None
        },
        None => None,
    }
}

fn image_capture(file: &str) -> (r: Option<String>)
    ensures
        match image_variant(file@) {
            Some(v) => r matches Some(s) && s@ == v,
            None => r is None,
        },
{
    match captures_all(IMAGE_PATTERN, file) {
        Some(ms) => {
            if ms.len() > 0 && ms[0].len() > 0 {
                assert(groups_view(ms@)[0] == ms@[0]@.map_values(|g: Option<String>| opt_view(g)));
                match &ms[0][0] {
                    Some(g) => Some(g.clone()),
                    None => None,
                }
            } else {
                None
            }
        },
        None => None,
    }
}

/// A file name that is not a valid image name.
#[derive(Debug)]
pub struct InvalidImageName(pub String);

/// The message for an invalid image name.
pub open spec fn invalid_image_message(file: Seq<char>) -> Seq<char> {
    "Invalid image file: "@ + file
}

/// The imager variant an image was made with, read from its file name.
pub fn partclone_variant_from_image(filename: &str) -> (r: Result<String, InvalidImageName>)
    ensures
        match image_variant(filename@) {
            Some(v) => r matches Ok(s) && s@ == v,
            None => r matches Err(e) && e.0@ == invalid_image_message(filename@),
        },
{
    match image_capture(filename) {
        Some(v) => Ok(v),
        None => {
            let mut m = String::from_str("Invalid image file: ");
            m.append(filename);
            Err(InvalidImageName(m))
        },
    }
}

/// Whether a file name is a valid image name.
pub fn is_valid_image_name(filename: &str) -> (r: bool)
    ensures
        r == (image_variant(filename@) is Some),
{
    partclone_variant_from_image(filename).is_ok()
}

/// The suffix of an image still being written.
pub open spec fn inprogress_suffix() -> Seq<char> {
    ".inprogress"@
}

/// `{dir}/{name}-{stamp}.apt.{variant}.{z_name}.inprogress`: where a clone
/// is written while it runs.
pub open spec fn inprogress_name(dir: Seq<char>, name: Seq<char>, stamp: Seq<char>, variant: Seq<char>, z_name: Seq<char>) -> Seq<char> {
    dir + "/"@ + name + "-"@ + stamp + ".apt."@ + variant + "."@ + z_name + inprogress_suffix()
}

/// A name without its trailing `.inprogress`; a name without one stays as it is.
pub open spec fn finished_name(inprogress: Seq<char>) -> Seq<char> {
    if ends_with(inprogress, inprogress_suffix()) {
        inprogress.subrange(0, inprogress.len() - inprogress_suffix().len())
    } else {
        inprogress
    }
}

/// Where a clone is written while it runs.
pub fn inprogress_destination(dir: &str, name: &str, stamp: &str, variant: &str, z_name: &str) -> (r: String)
    ensures
        r@ == inprogress_name(dir@, name@, stamp@, variant@, z_name@),
{
    let mut r = String::from_str(dir);
    r.append("/");
    r.append(name);
    r.append("-");
    r.append(stamp);
    r.append(".apt.");
    r.append(variant);
    r.append(".");
    r.append(z_name);
    r.append(".inprogress");
    r
}

/// Where a clone ends up once it succeeds: its in-progress name without
/// the trailing `.inprogress`.
pub fn finished_destination(inprogress: &str) -> (r: String)
    ensures
        r@ == finished_name(inprogress@),
{
    let chars = chars_of(inprogress);
    let suffix = chars_of(".inprogress");
    if has_suffix(&chars, &suffix) {
        string_of(&sub_chars(&chars, 0, chars.len() - suffix.len()))
    } else {
        inprogress.to_owned()
    }
}

/// The finished name of an in-progress name is that name with the date,
/// variant and compressor, and nothing after.
pub proof fn lemma_finished_name(dir: Seq<char>, name: Seq<char>, stamp: Seq<char>, variant: Seq<char>, z_name: Seq<char>)
    ensures
        finished_name(inprogress_name(dir, name, stamp, variant, z_name)) == dir + "/"@ + name + "-"@
            + stamp + ".apt."@ + variant + "."@ + z_name,
{
    let stem = dir + "/"@ + name + "-"@ + stamp + ".apt."@ + variant + "."@ + z_name;
    let full = inprogress_name(dir, name, stamp, variant, z_name);
    assert(full == stem + inprogress_suffix());
    assert(full.subrange(full.len() - inprogress_suffix().len(), full.len() as int) =~= inprogress_suffix());
    assert(full.subrange(0, full.len() - inprogress_suffix().len()) =~= stem);
}

} // verus!
