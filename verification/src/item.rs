use vstd::prelude::*;
use vstd::string::StringExecFns;

verus! {

/// The metadata record of one item, as plain attribute values.
///
/// The metadata service reports attributes best-effort: any of them can be
/// missing for a given item, so each field is optional, and the derived
/// accessors below return an empty or false result rather than an error when
/// the underlying attribute is unavailable. The native boundary that resolves
/// an item handle to these values lives outside this library.
pub struct MDItem {
    /// The filesystem path of the item
    pub path: Option<String>,
    /// The user-visible display name of the item
    pub display_name: Option<String>,
    /// The UTI (Uniform Type Identifier) of the item
    pub content_type: Option<String>,
    /// The ordered list of type identifiers describing the item's type
    /// hierarchy, most specific first
    pub content_type_tree: Option<Vec<String>>,
}

impl MDItem {
    /// Whether the content type tree is present and holds the given type.
    pub open spec fn tree_has(self, uti: Seq<char>) -> bool {
        match self.content_type_tree {
            Some(tree) => exists|i: int| 0 <= i < tree@.len() && tree@[i]@ == uti,
            None => false,
        }
    }

    /// Whether the item is a directory: its type tree contains the folder
    /// type.
    pub open spec fn spec_is_dir(self) -> bool {
        self.tree_has("public.folder"@)
    }

    /// Whether the item is an image file: its type tree contains the image
    /// type.
    pub open spec fn spec_is_image(self) -> bool {
        self.tree_has("public.image"@)
    }

    /// Whether the item is a video file: its type tree contains the movie
    /// type.
    pub open spec fn spec_is_video(self) -> bool {
        self.tree_has("public.movie"@)
    }

    /// Whether the item is an audio file: its type tree contains the audio
    /// type.
    pub open spec fn spec_is_audio(self) -> bool {
        self.tree_has("public.audio"@)
    }

    /// Whether the item is an application bundle: its content type is the
    /// application-bundle type.
    pub open spec fn spec_is_app(self) -> bool {
        self.content_type matches Some(ct) && ct@ == "com.apple.application-bundle"@
    }

    /// Retrieves the file path of this item, or None if not available.
    pub fn path(&self) -> (path: Option<String>)
        ensures
            path == self.path,
    {
        match &self.path {
            Some(p) => Some(p.clone()),
            None => None,
        }
    }

    /// Retrieves the display name of this item, or None if not available.
    pub fn display_name(&self) -> (name: Option<String>)
        ensures
            name == self.display_name,
    {
        match &self.display_name {
            Some(n) => Some(n.clone()),
            None => None,
        }
    }

    /// Retrieves the content type of this item, or None if not available.
    pub fn content_type(&self) -> (content_type: Option<String>)
        ensures
            content_type == self.content_type,
    {
        match &self.content_type {
            Some(ct) => Some(ct.clone()),
            None => None,
        }
    }

    /// Retrieves the content type tree of this item, or None if not
    /// available.
    pub fn content_type_tree(&self) -> (tree: Option<Vec<String>>)
        ensures
            tree is Some <==> self.content_type_tree is Some,
            tree matches Some(v) ==> self.content_type_tree matches Some(w) && v@ == w@,
    {
        match &self.content_type_tree {
            Some(t) => {
                let copy = t.clone();
                proof {
                    assert(copy@ =~= t@);
                }
                Some(copy)
            },
            None => None,
        }
    }

    /// Whether the content type tree is present and holds the given type.
    fn tree_contains(&self, uti: &str) -> (found: bool)
        ensures
            found == self.tree_has(uti@),
    {
        match &self.content_type_tree {
            Some(tree) => contains_str(tree, uti),
            None => false,
        }
    }

    /// Checks if this item is a directory.
    ///
    /// Best-effort: false whenever the type tree is unavailable.
    pub fn is_dir(&self) -> (dir: bool)
        ensures
            dir == self.spec_is_dir(),
    {
        self.tree_contains("public.folder")
    }

    /// Checks if this item is an image file.
    ///
    /// Best-effort: false whenever the type tree is unavailable.
    pub fn is_image(&self) -> (image: bool)
        ensures
            image == self.spec_is_image(),
    {
        self.tree_contains("public.image")
    }

    /// Checks if this item is a video file.
    ///
    /// Best-effort: false whenever the type tree is unavailable.
    pub fn is_video(&self) -> (video: bool)
        ensures
            video == self.spec_is_video(),
    {
        self.tree_contains("public.movie")
    }

    /// Checks if this item is an audio file.
    ///
    /// Best-effort: false whenever the type tree is unavailable.
    pub fn is_audio(&self) -> (audio: bool)
        ensures
            audio == self.spec_is_audio(),
    {
        self.tree_contains("public.audio")
    }

    /// Checks if this item is an application bundle.
    ///
    /// Best-effort: false whenever the content type is unavailable.
    pub fn is_app(&self) -> (app: bool)
        ensures
            app == self.spec_is_app(),
    {
        match &self.content_type {
            Some(ct) => {
                let expected = String::from_str("com.apple.application-bundle");
                *ct == expected
            },
            None => false,
        }
    }
}

/// Whether some element of the list equals the given string.
fn contains_str(list: &Vec<String>, needle: &str) -> (found: bool)
    ensures
        found == exists|i: int| 0 <= i < list@.len() && list@[i]@ == needle@,
{
    let expected = String::from_str(needle);
    let n = list.len();
    let mut i: usize = 0;
    while i < n
        invariant
            i <= n,
            n == list@.len(),
            expected@ == needle@,
            forall|j: int| 0 <= j < i ==> list@[j]@ != needle@,
        decreases n - i,
    {
        if list[i] == expected {
            proof {
                assert(list@[i as int]@ == needle@);
            }
            return true;
        }
        i = i + 1;
    }
    false
}

} // verus!
