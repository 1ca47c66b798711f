use vstd::prelude::*;
use vstd::string::*;

verus! {

/// The systems whose clipboards hold files.
#[derive(Debug, Clone, Copy, PartialEq, Eq, Structural)]
pub enum Platform {
    Linux,
    MacOs,
    Windows,
}

impl Platform {
    /// On Linux and macOS a file on the clipboard is a URI that starts with
    /// `file://`; on Windows it is a bare path.
    pub open spec fn file_scheme_expected(self) -> bool {
        !(self is Windows)
    }

    /// Whether files on this system's clipboard start with `file://`.
    pub fn expects_file_scheme(&self) -> (expected: bool)
        ensures
            expected == self.file_scheme_expected(),
    {
        match self {
            Platform::Linux => true,
            Platform::MacOs => true,
            Platform::Windows => false,
        }
    }
}

/// The scheme that marks a file URI.
pub open spec fn file_scheme() -> Seq<char> {
    "file://"@
}

/// The text starts with `file://`.
pub open spec fn has_file_scheme(text: Seq<char>) -> bool {
    file_scheme().is_prefix_of(text)
}

/// The text without a leading `file://`. The scheme is taken off once, and
/// only at the beginning.
pub open spec fn without_file_scheme(uri: Seq<char>) -> Seq<char> {
    if has_file_scheme(uri) {
        uri.skip(file_scheme().len() as int)
    } else {
        uri
    }
}

/// The form in which the platform's clipboard takes the path.
pub open spec fn uri_of(platform: Platform, path: Seq<char>) -> Seq<char> {
    if platform.file_scheme_expected() {
        file_scheme() + path
    } else {
        path
    }
}

/// The characters of each string.
pub open spec fn texts(strings: Seq<String>) -> Seq<Seq<char>> {
    strings.map_values(|s: String| s@)
}

/// Each URI without its leading `file://`.
pub open spec fn paths_of(uris: Seq<Seq<char>>) -> Seq<Seq<char>> {
    uris.map_values(|uri: Seq<char>| without_file_scheme(uri))
}

/// Each path in the form in which the platform's clipboard takes it.
pub open spec fn uris_of(platform: Platform, paths: Seq<Seq<char>>) -> Seq<Seq<char>> {
    paths.map_values(|path: Seq<char>| uri_of(platform, path))
}

/// The platform's clipboard takes the URI as it is.
pub open spec fn accepts(platform: Platform, uri: Seq<char>) -> bool {
    has_file_scheme(uri) == platform.file_scheme_expected()
}

/// `k` is the first position whose URI the platform's clipboard does not take.
pub open spec fn first_rejected(platform: Platform, uris: Seq<Seq<char>>, k: int) -> bool {
    &&& 0 <= k < uris.len()
    &&& !accepts(platform, uris[k])
    &&& forall|j: int| 0 <= j < k ==> accepts(platform, #[trigger] uris[j])
}

/// `k` is the first position whose text starts with `file://`.
pub open spec fn first_with_scheme(paths: Seq<Seq<char>>, k: int) -> bool {
    &&& 0 <= k < paths.len()
    &&& has_file_scheme(paths[k])
    &&& forall|j: int| 0 <= j < k ==> !has_file_scheme(#[trigger] paths[j])
}

/// Why the platform's clipboard does not take the URI.
pub open spec fn rejection(platform: Platform, uri: Seq<char>) -> Seq<char> {
    if platform.file_scheme_expected() {
        "Invalid file uri: "@ + uri + ". File uri should start with file://"@
    } else {
        "Invalid file uri: "@ + uri + ". File uri on Windows should not start with file://"@
    }
}

/// Why a text that starts with `file://` is not taken for a path.
pub open spec fn not_a_path(path: Seq<char>) -> Seq<char> {
    "Invalid file uri: "@ + path + ". File uri should not start with file://"@
}

proof fn lemma_file_scheme()
    ensures
        file_scheme() == seq!['f', 'i', 'l', 'e', ':', '/', '/'],
        file_scheme().len() == 7,
{
    reveal_strlit("file://");
    assert(file_scheme() =~= seq!['f', 'i', 'l', 'e', ':', '/', '/']);
}

/// Whether the text starts with `file://`.
pub fn starts_with_file_scheme(text: &str) -> (found: bool)
    ensures
        found == has_file_scheme(text@),
{
    let scheme = "file://";
    proof {
        lemma_file_scheme();
    }
    let length = text.unicode_len();
    if length < 7 {
        return false;
    }
    let mut i: usize = 0;
    while i < 7
        invariant
            i <= 7,
            length == text@.len(),
            length >= 7,
            scheme@ == file_scheme(),
            file_scheme().len() == 7,
            forall|j: int| 0 <= j < i ==> text@[j] == file_scheme()[j],
        decreases 7 - i,
    {
        if text.get_char(i) != scheme.get_char(i) {
            assert(text@.subrange(0, 7)[i as int] != file_scheme()[i as int]);
            return false;
        }
        i += 1;
    }
    assert(file_scheme() =~= text@.subrange(0, 7));
    true
}

/// The text without a leading `file://`.
pub fn strip_file_scheme(uri: &str) -> (path: String)
    ensures
        path@ == without_file_scheme(uri@),
{
    if starts_with_file_scheme(uri) {
        proof {
            lemma_file_scheme();
        }
        let length = uri.unicode_len();
        let rest = uri.substring_char(7, length);
        assert(rest@ =~= uri@.skip(7));
        String::from_str(rest)
    } else {
        String::from_str(uri)
    }
}

/// The files read from the clipboard as paths: each one without its leading
/// `file://`, if it has one, in the same order.
pub fn paths_from_uris(uris: &Vec<String>) -> (paths: Vec<String>)
    ensures
        paths@.len() == uris@.len(),
        forall|i: int| 0 <= i < uris@.len() ==> paths@[i]@ == without_file_scheme(uris@[i]@),
        texts(paths@) == paths_of(texts(uris@)),
{
    let mut paths: Vec<String> = Vec::new();
    let mut i: usize = 0;
    while i < uris.len()
        invariant
            i <= uris.len(),
            paths.len() == i,
            forall|j: int| 0 <= j < i ==> paths@[j]@ == without_file_scheme(uris@[j]@),
        decreases uris.len() - i,
    {
        paths.push(strip_file_scheme(uris[i].as_str()));
        i += 1;
    }
    assert(texts(paths@) =~= paths_of(texts(uris@)));
    paths
}

fn rejection_message(platform: Platform, uri: &str) -> (message: String)
    ensures
        message@ == rejection(platform, uri@),
{
    let mut message = String::from_str("Invalid file uri: ");
    message.append(uri);
    if platform.expects_file_scheme() {
        message.append(". File uri should start with file://");
    } else {
        message.append(". File uri on Windows should not start with file://");
    }
    message
}

fn not_a_path_message(path: &str) -> (message: String)
    ensures
        message@ == not_a_path(path@),
{
    let mut message = String::from_str("Invalid file uri: ");
    message.append(path);
    message.append(". File uri should not start with file://");
    message
}

/// Checks the files before they are written to the clipboard. They pass if
/// each is in the platform's form; otherwise the first that is not is named in
/// the error.
pub fn check_file_uris(platform: Platform, uris: &Vec<String>) -> (checked: Result<(), String>)
    ensures
        match checked {
            Ok(()) => forall|i: int|
                0 <= i < uris@.len() ==> accepts(platform, #[trigger] texts(uris@)[i]),
            Err(message) => exists|k: int|
                #[trigger] first_rejected(platform, texts(uris@), k) && message@ == rejection(
                    platform,
                    texts(uris@)[k],
                ),
        },
{
    let expected = platform.expects_file_scheme();
    let mut i: usize = 0;
    while i < uris.len()
        invariant
            i <= uris.len(),
            expected == platform.file_scheme_expected(),
            forall|j: int| 0 <= j < i ==> accepts(platform, #[trigger] texts(uris@)[j]),
        decreases uris.len() - i,
    {
        if starts_with_file_scheme(uris[i].as_str()) != expected {
            assert(first_rejected(platform, texts(uris@), i as int));
            return Err(rejection_message(platform, uris[i].as_str()));
        }
        i += 1;
    }
    Ok(())
}

/// Turns paths into the files to write to the clipboard. A text that starts
/// with `file://` is no path: the first such text is named in the error.
/// Otherwise each path is given in the platform's form, in the same order.
pub fn uris_from_paths(platform: Platform, paths: &Vec<String>) -> (uris: Result<
    Vec<String>,
    String,
>)
    ensures
        match uris {
            Ok(uris) => {
                &&& forall|i: int|
                    0 <= i < paths@.len() ==> !has_file_scheme(#[trigger] texts(paths@)[i])
                &&& uris@.len() == paths@.len()
                &&& forall|i: int|
                    0 <= i < paths@.len() ==> uris@[i]@ == uri_of(platform, paths@[i]@)
                &&& texts(uris@) == uris_of(platform, texts(paths@))
            },
            Err(message) => exists|k: int|
                #[trigger] first_with_scheme(texts(paths@), k) && message@ == not_a_path(
                    texts(paths@)[k],
                ),
        },
{
    let mut i: usize = 0;
    while i < paths.len()
        invariant
            i <= paths.len(),
            forall|j: int| 0 <= j < i ==> !has_file_scheme(#[trigger] texts(paths@)[j]),
        decreases paths.len() - i,
    {
        if starts_with_file_scheme(paths[i].as_str()) {
            assert(first_with_scheme(texts(paths@), i as int));
            return Err(not_a_path_message(paths[i].as_str()));
        }
        i += 1;
    }
    let with_scheme = platform.expects_file_scheme();
    let mut uris: Vec<String> = Vec::new();
    let mut i: usize = 0;
    while i < paths.len()
        invariant
            i <= paths.len(),
            uris.len() == i,
            with_scheme == platform.file_scheme_expected(),
            forall|j: int| 0 <= j < i ==> uris@[j]@ == uri_of(platform, paths@[j]@),
        decreases paths.len() - i,
    {
        if with_scheme {
            let mut uri = String::from_str("file://");
            uri.append(paths[i].as_str());
            uris.push(uri);
        } else {
            uris.push(paths[i].clone());
        }
        i += 1;
    }
    assert(texts(uris@) =~= uris_of(platform, texts(paths@)));
    Ok(uris)
}

/// A text to which `file://` was prefixed starts with it, and taking the
/// scheme off again gives the text back.
pub proof fn lemma_scheme_prefixed(path: Seq<char>)
    ensures
        has_file_scheme(file_scheme() + path),
        without_file_scheme(file_scheme() + path) == path,
{
    let uri = file_scheme() + path;
    assert(uri.subrange(0, file_scheme().len() as int) =~= file_scheme());
    assert(uri.skip(file_scheme().len() as int) =~= path);
}

/// The clipboard of a platform takes every file that was made from a path
/// for that platform.
pub proof fn lemma_uris_of_paths_are_accepted(platform: Platform, paths: Seq<Seq<char>>, i: int)
    requires
        0 <= i < paths.len(),
        !has_file_scheme(paths[i]),
    ensures
        accepts(platform, uris_of(platform, paths)[i]),
{
    lemma_scheme_prefixed(paths[i]);
}

/// Paths that were written as files are read back unchanged.
pub proof fn lemma_paths_read_back(platform: Platform, paths: Seq<Seq<char>>)
    requires
        forall|i: int| 0 <= i < paths.len() ==> !has_file_scheme(#[trigger] paths[i]),
    ensures
        paths_of(uris_of(platform, paths)) == paths,
{
    assert forall|i: int| 0 <= i < paths.len() implies paths_of(uris_of(platform, paths))[i]
        == paths[i] by {
        lemma_scheme_prefixed(paths[i]);
    }
    assert(paths_of(uris_of(platform, paths)) =~= paths);
}

} // verus!
