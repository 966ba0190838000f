use vstd::prelude::*;

verus! {

/// An image file found in the listed directory, with the label shown under it.
#[derive(Debug, PartialEq, Eq)]
pub struct ImageEntry {
    pub path: String,
    pub label: String,
}

/// An image entry seen as its path and its label.
pub type ImageView = (Seq<char>, Seq<char>);

impl View for ImageEntry {
    type V = ImageView;

    open spec fn view(&self) -> ImageView {
        (self.path@, self.label@)
    }
}

impl ImageEntry {
    /// A copy of this entry.
    pub fn duplicate(&self) -> (r: ImageEntry)
        ensures
            r@ == self@,
    {
        ImageEntry { path: self.path.clone(), label: self.label.clone() }
    }
}

pub open spec fn entries_view(s: Seq<ImageEntry>) -> Seq<ImageView> {
    s.map_values(|e: ImageEntry| e@)
}

/// One child of a directory, as the directory listing reports it.
pub struct ListedEntry {
    /// The full path of the child.
    pub path: String,
    /// The child's own name within the directory.
    pub file_name: String,
    /// Whether the child is a regular file.
    pub is_file: bool,
}

/// A name that a directory listing can give a child: not empty, no separator,
/// and neither `.` nor `..`.
pub open spec fn plain_file_name(name: Seq<char>) -> bool {
    &&& name.len() > 0
    &&& !name.contains('/')
    &&& name != seq!['.']
    &&& name != seq!['.', '.']
}

/// Index of the last `.` in `s`, or -1 when there is none.
pub open spec fn last_dot(s: Seq<char>) -> int
    decreases s.len(),
{
    if s.len() == 0 {
        -1
    } else if s.last() == '.' {
        s.len() - 1
    } else {
        last_dot(s.drop_last())
    }
}

/// The extension of a file name: what follows the last `.`, unless that `.` opens the name.
pub open spec fn extension_of(name: Seq<char>) -> Option<Seq<char>> {
    let d = last_dot(name);
    if d <= 0 {
        None
    } else {
        Some(name.subrange(d + 1, name.len() as int))
    }
}

/// The stem of a file name: what precedes the last `.`, or the whole name where
/// `extension_of` finds no extension.
pub open spec fn stem_of(name: Seq<char>) -> Seq<char> {
    let d = last_dot(name);
    if d <= 0 {
        name
    } else {
        name.subrange(0, d)
    }
}

/// The one extension an image file may have; the match is case-sensitive.
pub open spec fn svg_extension() -> Seq<char> {
    seq!['s', 'v', 'g']
}

/// Whether a listed child is shown as an image.
pub open spec fn is_image(e: ListedEntry) -> bool {
    e.is_file && extension_of(e.file_name@) == Some(svg_extension())
}

/// The image entries that a listing yields, in the listing's order.
pub open spec fn images_of(s: Seq<ListedEntry>) -> Seq<ImageView>
    decreases s.len(),
{
    if s.len() == 0 {
        seq![]
    } else {
        let e = s.last();
        let before = images_of(s.drop_last());
        if is_image(e) {
            before.push((e.path@, stem_of(e.file_name@)))
        } else {
            before
        }
    }
}

/// Relies on std's `Path::extension`: for a plain file name, the part after the
/// last `.`, with none where the name has no `.` or only a leading one.
#[verifier::external_body]
fn file_extension(name: &str) -> (r: Option<String>)
    ensures
        plain_file_name(name@) ==> (r is Some <==> extension_of(name@) is Some),
        plain_file_name(name@) && r is Some ==> r->0@ == extension_of(name@)->0,
{
    std::path::Path::new(name).extension().map(|e| e.to_string_lossy().into_owned())
}

/// Relies on std's `Path::file_stem`: for a plain file name, the part before the
/// last `.`, or the whole name where it has no extension.
#[verifier::external_body]
fn file_stem(name: &str) -> (r: Option<String>)
    ensures
        plain_file_name(name@) ==> r is Some,
        plain_file_name(name@) && r is Some ==> r->0@ == stem_of(name@),
{
    std::path::Path::new(name).file_stem().map(|e| e.to_string_lossy().into_owned())
}

/// Whether a listed child is a regular file whose extension is exactly `svg`.
pub fn is_svg_file(entry: &ListedEntry) -> (r: bool)
    requires
        plain_file_name(entry.file_name@),
    ensures
        r == is_image(*entry),
{
    if !entry.is_file {
        return false;
    }
    match file_extension(entry.file_name.as_str()) {
        Some(ext) => {
            let target = "svg".to_owned();
            proof {
                reveal_strlit("svg");
                assert(target@ =~= svg_extension());
            }
            ext == target
        },
        None => false,
    }
}

/// Picks out of a directory listing the regular files with extension `svg`, in the
/// listing's order, each labelled with its file name less the extension.
pub fn select_images(entries: &Vec<ListedEntry>) -> (r: Vec<ImageEntry>)
    requires
        forall|i: int| 0 <= i < entries@.len() ==> plain_file_name(#[trigger] entries@[i].file_name@),
    ensures
        entries_view(r@) == images_of(entries@),
{
    let mut r: Vec<ImageEntry> = Vec::new();
    let mut i: usize = 0;
    while i < entries.len()
        invariant
            i <= entries@.len(),
            forall|j: int| 0 <= j < entries@.len() ==> plain_file_name(#[trigger] entries@[j].file_name@),
            entries_view(r@) == images_of(entries@.take(i as int)),
        decreases entries@.len() - i,
    {
        let entry = &entries[i];
        assert(entries@.take(i + 1).drop_last() =~= entries@.take(i as int));
        assert(entries@.take(i + 1).last() == entries@[i as int]);
        if is_svg_file(entry) {
            let label = match file_stem(entry.file_name.as_str()) {
                Some(stem) => stem,
                None => entry.file_name.clone(),
            };
            let e = ImageEntry { path: entry.path.clone(), label };
            let ghost before = r@;
            r.push(e);
            assert(entries_view(r@) =~= entries_view(before).push(e@));
        }
        i = i + 1;
    }
    assert(entries@.take(i as int) =~= entries@);
    r
}

} // verus!
