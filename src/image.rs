use vstd::prelude::*;

verus! {

/// The suffix that qualifies an image reference that carries no tag.
pub open spec fn latest_suffix() -> Seq<char> {
    seq![':', 'l', 'a', 't', 'e', 's', 't']
}

/// Whether a reference names a tag, i.e. holds a colon somewhere.
pub open spec fn has_colon(s: Seq<char>) -> bool {
    exists|i: int| 0 <= i < s.len() && s[i] == ':'
}

/// The tag-qualified form of an image reference.
pub open spec fn tagged(s: Seq<char>) -> Seq<char> {
    if has_colon(s) {
        s
    } else {
        s + latest_suffix()
    }
}

fn contains_colon(s: &str) -> (r: bool)
    ensures
        r == has_colon(s@),
{
    let n = s.unicode_len();
    let mut i: usize = 0;
    while i < n
        invariant
            n == s@.len(),
            i <= n,
            forall|k: int| 0 <= k < i ==> s@[k] != ':',
        decreases n - i,
    {
        if s.get_char(i) == ':' {
            return true;
        }
        i = i + 1;
    }
    false
}

/// Qualifies an image reference with `:latest` unless it already names a tag.
pub fn append_tag(image: &str) -> (r: String)
    ensures
        r@ == tagged(image@),
{
    let mut r = String::from_str(image);
    if !contains_colon(image) {
        let suffix = ":latest";
        proof {
            reveal_strlit(":latest");
        }
        r.append(suffix);
    }
    r
}

/// Whether one of the cached images lists `want` among its repository tags.
pub open spec fn cached(images: Seq<Vec<String>>, want: Seq<char>) -> bool {
    exists|i: int, j: int|
        0 <= i < images.len() && 0 <= j < images[i]@.len() && #[trigger] images[i]@[j]@ == want
}

fn lists_tag(tags: &Vec<String>, want: &String) -> (r: bool)
    ensures
        r == exists|j: int| 0 <= j < tags@.len() && #[trigger] tags@[j]@ == want@,
{
    let mut j: usize = 0;
    while j < tags.len()
        invariant
            j <= tags@.len(),
            forall|k: int| 0 <= k < j ==> #[trigger] tags@[k]@ != want@,
        decreases tags@.len() - j,
    {
        if tags[j] == *want {
            return true;
        }
        j = j + 1;
    }
    false
}

/// Whether the image `image` is already in the local cache, given the
/// repository tags of each cached image. The reference is tag-qualified
/// before it is compared.
pub fn image_cached(images: &Vec<Vec<String>>, image: &str) -> (r: bool)
    ensures
        r == cached(images@, tagged(image@)),
{
    let want = append_tag(image);
    let mut i: usize = 0;
    while i < images.len()
        invariant
            want@ == tagged(image@),
            i <= images@.len(),
            forall|k: int, j: int|
                0 <= k < i && 0 <= j < images@[k]@.len() ==> #[trigger] images@[k]@[j]@ != want@,
        decreases images@.len() - i,
    {
        if lists_tag(&images[i], &want) {
            return true;
        }
        i = i + 1;
    }
    false
}

} // verus!
