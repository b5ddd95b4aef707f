use vstd::prelude::*;
use vstd::string::StringExecFns;
use vstd::string::StrSliceExecFns;
use crate::news::NewsMaterial;
use crate::mpeg::VideoEditToolError;

verus! {

pub type VideoEditorResult<T> = Result<T, VideoEditorError>;

#[derive(Debug)]
pub enum VideoEditorError {
    NoSet,
    NetWork(String),
    IO(String),
    Image(String),
    Duration,
    Tool(VideoEditToolError),
}

/// Capability contract for the visual stage: builds a silent video of the
/// given duration (milliseconds) out of the material's images.
pub trait VideoEditor {
    fn do_edit(&self, material: &NewsMaterial, dur_ms: u64) -> VideoEditorResult<String>;
}

/// How many images a video of `dur_ms` milliseconds needs, at two seconds
/// per image: the duration divided by two seconds, rounded up, and at
/// least one.
pub open spec fn units_needed(dur_ms: u64) -> int {
    let units = dur_ms as int / 2000 + if dur_ms as int % 2000 > 0 {
        1int
    } else {
        0int
    };
    if units < 1 {
        1
    } else {
        units
    }
}

/// The selected image sequence: the source images repeated in their
/// original order until the needed count is reached.
pub open spec fn tile_selection(pics: Seq<Seq<char>>, dur_ms: u64) -> Seq<Seq<char>> {
    Seq::new(units_needed(dur_ms) as nat, |i: int| pics[i % pics.len() as int])
}

/// The image selector is a pure function: two selections made from
/// identical arguments are identical.
pub proof fn lemma_tiling_deterministic(
    pics: Seq<Seq<char>>,
    dur_ms: u64,
    first: Seq<Seq<char>>,
    second: Seq<Seq<char>>,
)
    requires
        first == tile_selection(pics, dur_ms),
        second == tile_selection(pics, dur_ms),
    ensures
        first == second,
{
}

/// Picks the images that fill the target duration: the first `ceil(dur /
/// 2s)` images in order when enough are given, otherwise the whole list
/// tiled over and over, then cut off.
pub fn get_need_pics(pics: &Vec<String>, dur_ms: u64) -> (r: Vec<String>)
    requires
        pics@.len() > 0,
        units_needed(dur_ms) <= usize::MAX,
    ensures
        r@.len() == units_needed(dur_ms),
        forall|i: int| 0 <= i < r@.len() ==> r@[i]@ == pics@[i % pics@.len() as int]@,
        r@.map_values(|s: String| s@) == tile_selection(pics@.map_values(|s: String| s@), dur_ms),
{
    let units64: u64 = dur_ms / 2000 + if dur_ms % 2000 > 0 {
        1
    } else {
        0
    };
    let units64: u64 = if units64 < 1 {
        1
    } else {
        units64
    };
    let units: usize = units64 as usize;

    let mut list: Vec<String> = Vec::new();
    let mut i: usize = 0;
    while i < units
        invariant
            0 <= i <= units,
            units == units_needed(dur_ms),
            pics@.len() > 0,
            list@.len() == i,
            forall|j: int| 0 <= j < i ==> list@[j]@ == pics@[j % pics@.len() as int]@,
        decreases units - i,
    {
        list.push(pics[i % pics.len()].clone());
        i = i + 1;
    }
    proof {
        assert(list@.map_values(|s: String| s@) =~= tile_selection(
            pics@.map_values(|s: String| s@),
            dur_ms,
        ));
    }
    list
}

/// The text of one entry of the image list handed to the video tool.
pub open spec fn file_list_entry(name: Seq<char>) -> Seq<char> {
    "file '"@ + name + "'\nduration 2\n\n"@
}

/// The entries for the first `n` images, in order.
pub open spec fn file_list_upto(names: Seq<Seq<char>>, n: int) -> Seq<char>
    decreases n,
{
    if n <= 0 {
        Seq::empty()
    } else {
        file_list_upto(names, n - 1) + file_list_entry(names[n - 1])
    }
}

/// The whole image list: one timed entry per image, then the first image
/// again with no duration, which keeps it on screen to the very end.
pub open spec fn file_list_doc(names: Seq<Seq<char>>) -> Seq<char> {
    file_list_upto(names, names.len() as int) + "file '"@ + names[0] + "'\nduration 0\n\n"@
}

/// The text of the image list handed to the video tool, or an image error
/// when there is no image at all.
pub fn build_file_list(pics: &Vec<String>) -> (r: Result<String, VideoEditorError>)
    ensures
        match r {
            Ok(s) => pics@.len() > 0 && s@ == file_list_doc(pics@.map_values(|p: String| p@)),
            Err(e) => pics@.len() == 0 && e is Image,
        },
{
    if pics.len() == 0 {
        return Err(VideoEditorError::Image(String::from_str("no pics to compose")));
    }
    let ghost names = pics@.map_values(|p: String| p@);
    let mut content = String::new();
    let n = pics.len();
    let mut i: usize = 0;
    while i < n
        invariant
            0 <= i <= n,
            n == pics@.len(),
            names == pics@.map_values(|p: String| p@),
            content@ == file_list_upto(names, i as int),
        decreases n - i,
    {
        content.append("file '");
        content.append(pics[i].as_str());
        content.append("'\nduration 2\n\n");
        i = i + 1;
    }
    content.append("file '");
    content.append(pics[0].as_str());
    content.append("'\nduration 0\n\n");
    Ok(content)
}

/// The first position at or after `from` where `c` stands in `s`, or the
/// length of `s` when there is none.
pub open spec fn find_char(s: Seq<char>, c: char, from: int) -> int
    decreases s.len() - from,
{
    if from < 0 || from >= s.len() {
        s.len() as int
    } else if s[from] == c {
        from
    } else {
        find_char(s, c, from + 1)
    }
}

/// The subtype of a content-type value, or `None` when it has no slash.
pub open spec fn image_subtype(s: Seq<char>) -> Option<Seq<char>> {
    let i1 = find_char(s, '/', 0);
    if i1 == s.len() {
        Option::None
    } else {
        Option::Some(s.subrange(i1 + 1, find_char(s, '/', i1 + 1)))
    }
}

proof fn lemma_find_char_step(s: Seq<char>, c: char, from: int)
    requires
        0 <= from < s.len(),
        s[from] != c,
    ensures
        find_char(s, c, from) == find_char(s, c, from + 1),
{
}

fn find_slash(s: &str, from: usize) -> (r: usize)
    requires
        from <= s@.len(),
    ensures
        r == find_char(s@, '/', from as int),
        from <= r <= s@.len(),
{
    let n = s.unicode_len();
    let mut i: usize = from;
    while i < n && s.get_char(i) != '/'
        invariant
            from <= i <= n,
            n == s@.len(),
            find_char(s@, '/', from as int) == find_char(s@, '/', i as int),
        decreases n - i,
    {
        proof {
            lemma_find_char_step(s@, '/', i as int);
        }
        i = i + 1;
    }
    i
}

/// The piece of a content-type value that names the image format: what
/// stands between the first slash and the next one (or the end).
pub fn image_format(content_type: &str) -> (r: Option<String>)
    ensures
        match r {
            Some(f) => image_subtype(content_type@) == Some(f@),
            None => image_subtype(content_type@) is None,
        },
{
    let n = content_type.unicode_len();
    let i = find_slash(content_type, 0);
    if i == n {
        return None;
    }
    let start = i + 1;
    let j = find_slash(content_type, start);
    let sub = content_type.substring_char(start, j);
    Some(sub.to_owned())
}

} // verus!
