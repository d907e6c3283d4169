//! The registry of compressors that images can be written with.

use vstd::prelude::*;
use vstd::string::*;
use crate::text::{chars_of, ends_with, has_suffix, same_text};

verus! {

/// A compressor: its reported name, which is also the image file extension,
/// the command, and the arguments used when writing and when reading.
#[derive(Debug, Clone, Copy, PartialEq, Eq, Hash)]
pub struct Compression {
    pub name: &'static str,
    pub command: &'static str,
    pub write_args: &'static [&'static str],
    pub read_args: &'static [&'static str],
}

/// Number of registered compressors.
pub const REGISTERED: usize = 4;

/// The names of the registered compressors, in preference order.
pub open spec fn registered_names() -> Seq<Seq<char>> {
    seq!["gz"@, "uncompressed"@, "zst"@, "lz4"@]
}

/// The commands of the registered compressors.
pub open spec fn registered_commands() -> Seq<Seq<char>> {
    seq!["pigz"@, "cat"@, "zstd"@, "lz4"@]
}

/// The write-side arguments of the registered compressors.
pub open spec fn registered_write_args() -> Seq<Seq<Seq<char>>> {
    seq![seq!["-1c"@], seq!["-"@], seq!["-T0"@, "-c"@], seq!["-c"@]]
}

/// The read-side arguments of the registered compressors.
pub open spec fn registered_read_args() -> Seq<Seq<Seq<char>>> {
    seq![seq!["-dc"@], seq!["-"@], seq!["-T0"@, "--long=31"@, "-dc"@], seq!["-dc"@]]
}

/// The text of each argument.
pub open spec fn args_view(a: Seq<&str>) -> Seq<Seq<char>> {
    a.map_values(|s: &str| s@)
}

/// `z` is the registered compressor at index `i`.
pub open spec fn is_registered(z: Compression, i: int) -> bool {
    &&& 0 <= i < REGISTERED
    &&& z.name@ == registered_names()[i]
    &&& z.command@ == registered_commands()[i]
    &&& args_view(z.write_args@) == registered_write_args()[i]
    &&& args_view(z.read_args@) == registered_read_args()[i]
}

/// The legacy extension that also names the zstd compressor.
pub open spec fn legacy_zstd_ext() -> Seq<char> {
    ".zstd"@
}

/// The file extension of a compressor name.
pub open spec fn ext_of(name: Seq<char>) -> Seq<char> {
    "."@ + name
}

/// Index in the registry of the first compressor whose extension ends `file`,
/// the legacy zstd extension standing for the zstd compressor.
pub open spec fn file_name_index(file: Seq<char>) -> Option<int> {
    if ends_with(file, ext_of(registered_names()[0])) {
        Some(0)
    } else if ends_with(file, ext_of(registered_names()[1])) {
        Some(1)
    } else if ends_with(file, ext_of(registered_names()[2])) {
        Some(2)
    } else if ends_with(file, ext_of(registered_names()[3])) {
        Some(3)
    } else if ends_with(file, legacy_zstd_ext()) {
        Some(2)
    } else {
        None
    }
}

/// Index in the registry of the compressor with the given name.
pub open spec fn name_index(name: Seq<char>) -> Option<int> {
    if name == registered_names()[0] {
        Some(0)
    } else if name == registered_names()[1] {
        Some(1)
    } else if name == registered_names()[2] {
        Some(2)
    } else if name == registered_names()[3] {
        Some(3)
    } else {
        None
    }
}

/// Registry indices, in preference order, whose compressor is flagged
/// installed among the first `n`.
pub open spec fn installed_indices(flags: Seq<bool>, n: nat) -> Seq<int>
    decreases n,
{
    if n == 0 {
        Seq::empty()
    } else {
        let prev = installed_indices(flags, (n - 1) as nat);
        if n - 1 < flags.len() && flags[n - 1] {
            prev.push(n - 1)
        } else {
            prev
        }
    }
}

/// The message for an unknown compressor name.
pub open spec fn unknown_name_message(name: Seq<char>) -> Seq<char> {
    "Unknown compression name `"@ + name + "`"@
}

/// The message for a file name with no known compressor extension.
pub open spec fn unknown_file_message(file: Seq<char>) -> Seq<char> {
    "Unknown compression used in file `"@ + file + "`"@
}

impl Compression {
    /// gzip through pigz.
    pub fn pigz() -> (z: Compression)
        ensures
            is_registered(z, 0),
    {
        let z = Compression { name: "gz", command: "pigz", write_args: &["-1c"], read_args: &["-dc"] };
        assert(args_view(z.write_args@) =~= seq!["-1c"@]);
        assert(args_view(z.read_args@) =~= seq!["-dc"@]);
        z
    }

    /// No compression: the stream is copied as it is.
    pub fn none() -> (z: Compression)
        ensures
            is_registered(z, 1),
    {
        let z = Compression { name: "uncompressed", command: "cat", write_args: &["-"], read_args: &["-"] };
        assert(args_view(z.write_args@) =~= seq!["-"@]);
        assert(args_view(z.read_args@) =~= seq!["-"@]);
        z
    }

    /// zstd, multithreaded; reading accepts long-distance windows.
    pub fn zstd() -> (z: Compression)
        ensures
            is_registered(z, 2),
    {
        let z = Compression {
            name: "zst",
            command: "zstd",
            write_args: &["-T0", "-c"],
            read_args: &["-T0", "--long=31", "-dc"],
        };
        assert(args_view(z.write_args@) =~= seq!["-T0"@, "-c"@]);
        assert(args_view(z.read_args@) =~= seq!["-T0"@, "--long=31"@, "-dc"@]);
        z
    }

    /// lz4.
    pub fn lz4() -> (z: Compression)
        ensures
            is_registered(z, 3),
    {
        let z = Compression { name: "lz4", command: "lz4", write_args: &["-c"], read_args: &["-dc"] };
        assert(args_view(z.write_args@) =~= seq!["-c"@]);
        assert(args_view(z.read_args@) =~= seq!["-dc"@]);
        z
    }

    /// The registered compressor at index `i` of the preference order.
    pub fn registered(i: usize) -> (z: Compression)
        requires
            i < REGISTERED,
        ensures
            is_registered(z, i as int),
    {
        if i == 0 {
            Self::pigz()
        } else if i == 1 {
            Self::none()
        } else if i == 2 {
            Self::zstd()
        } else {
            Self::lz4()
        }
    }

    /// All registered compressors, in preference order.
    pub fn all() -> (r: Vec<Compression>)
        ensures
            r@.len() == REGISTERED,
            forall|i: int| 0 <= i < REGISTERED ==> is_registered(r@[i], i),
    {
        let mut r: Vec<Compression> = Vec::new();
        let mut i: usize = 0;
        while i < REGISTERED
            invariant
                i <= REGISTERED,
                r@.len() == i,
                forall|j: int| 0 <= j < i ==> is_registered(r@[j], j),
            decreases REGISTERED - i,
        {
            r.push(Self::registered(i));
            i = i + 1;
        }
        r
    }

    /// The registered compressor with the given name.
    pub fn from_name(name: &str) -> (r: Result<Compression, String>)
        ensures
            match name_index(name@) {
                Some(i) => r matches Ok(z) && is_registered(z, i),
                None => r matches Err(e) && e@ == unknown_name_message(name@),
            },
    {
        let mut i: usize = 0;
        while i < REGISTERED
            invariant
                i <= REGISTERED,
                forall|j: int| 0 <= j < i ==> registered_names()[j] != name@,
            decreases REGISTERED - i,
        {
            let z = Self::registered(i);
            if same_text(z.name, name) {
                return Ok(z);
            }
            i = i + 1;
        }
        let mut e = String::from_str("Unknown compression name `");
        e.append(name);
        e.append("`");
        Err(e)
    }

    /// The compressor whose extension ends the file name; the legacy `.zstd`
    /// extension names the zstd compressor.
    pub fn from_file_name(file: &str) -> (r: Result<Compression, String>)
        ensures
            match file_name_index(file@) {
                Some(i) => r matches Ok(z) && is_registered(z, i),
                None => r matches Err(e) && e@ == unknown_file_message(file@),
            },
    {
        let chars = chars_of(file);
        let mut i: usize = 0;
        while i < REGISTERED
            invariant
                i <= REGISTERED,
                chars@ == file@,
                forall|j: int| 0 <= j < i ==> !ends_with(file@, ext_of(registered_names()[j])),
            decreases REGISTERED - i,
        {
            let z = Self::registered(i);
            let ext = String::from_str(".").concat(z.name);
            if has_suffix(&chars, &chars_of(ext.as_str())) {
                return Ok(z);
            }
            i = i + 1;
        }
        if has_suffix(&chars, &chars_of(".zstd")) {
            return Ok(Self::zstd());
        }
        let mut e = String::from_str("Unknown compression used in file `");
        e.append(file);
        e.append("`");
        Err(e)
    }

    /// The registered compressors whose flag in `installed` (indexed as the
    /// registry) is set, in preference order; a missing flag counts as unset.
    pub fn all_installed(installed: &Vec<bool>) -> (r: Vec<Compression>)
        ensures
            r@.len() == installed_indices(installed@, REGISTERED as nat).len(),
            forall|k: int|
                0 <= k < r@.len() ==> is_registered(
                    #[trigger] r@[k],
                    installed_indices(installed@, REGISTERED as nat)[k],
                ),
    {
        let mut r: Vec<Compression> = Vec::new();
        let mut i: usize = 0;
        while i < REGISTERED
            invariant
                i <= REGISTERED,
                r@.len() == installed_indices(installed@, i as nat).len(),
                forall|k: int|
                    0 <= k < r@.len() ==> is_registered(
                        #[trigger] r@[k],
                        installed_indices(installed@, i as nat)[k],
                    ),
            decreases REGISTERED - i,
        {
            if i < installed.len() && installed[i] {
                r.push(Self::registered(i));
            }
            i = i + 1;
            assert(installed_indices(installed@, i as nat) == if i - 1 < installed@.len()
                && installed@[i - 1] {
                installed_indices(installed@, (i - 1) as nat).push(i - 1)
            } else {
                installed_indices(installed@, (i - 1) as nat)
            });
        }
        r
    }
}

/// A file name resolves to a registered compressor exactly when it ends in
/// `.gz`, `.uncompressed`, `.zst`, `.zstd` or `.lz4`.
pub proof fn lemma_file_name_resolves(file: Seq<char>)
    ensures
        file_name_index(file) is Some <==> (ends_with(file, ".gz"@) || ends_with(
            file,
            ".uncompressed"@,
        ) || ends_with(file, ".zst"@) || ends_with(file, ".zstd"@) || ends_with(file, ".lz4"@)),
{
    reveal_strlit(".");
    reveal_strlit("gz");
    reveal_strlit("uncompressed");
    reveal_strlit("zst");
    reveal_strlit("lz4");
    reveal_strlit(".gz");
    reveal_strlit(".uncompressed");
    reveal_strlit(".zst");
    reveal_strlit(".zstd");
    reveal_strlit(".lz4");
    assert(ext_of(registered_names()[0]) =~= ".gz"@);
    assert(ext_of(registered_names()[1]) =~= ".uncompressed"@);
    assert(ext_of(registered_names()[2]) =~= ".zst"@);
    assert(ext_of(registered_names()[3]) =~= ".lz4"@);
}

proof fn lemma_differs_from_end(s: Seq<char>, t: Seq<char>, k: int)
    requires
        0 <= k < s.len(),
        k < t.len(),
        s[s.len() - 1 - k] != t[t.len() - 1 - k],
    ensures
        !ends_with(s, t),
{
    if ends_with(s, t) {
        assert(s.subrange(s.len() - t.len(), s.len() as int)[t.len() - 1 - k] == s[s.len() - 1 - k]);
    }
}

/// Both the current and the legacy zstd extensions name the zstd compressor.
pub proof fn lemma_zstd_extensions(stem: Seq<char>)
    ensures
        file_name_index(stem + ".zst"@) == Some(2int),
        file_name_index(stem + ".zstd"@) == Some(2int),
{
    reveal_strlit(".");
    reveal_strlit("gz");
    reveal_strlit("uncompressed");
    reveal_strlit("zst");
    reveal_strlit("lz4");
    reveal_strlit(".zst");
    reveal_strlit(".zstd");
    let a = stem + ".zst"@;
    let b = stem + ".zstd"@;
    assert(ext_of(registered_names()[2]) =~= ".zst"@);
    assert(a.subrange(a.len() - 3, a.len() as int) =~= ".zst"@.subrange(1, 4));
    assert(a.subrange(a.len() - 4, a.len() as int) =~= ".zst"@);
    assert(b.subrange(b.len() - 5, b.len() as int) =~= ".zstd"@);
    assert(b.subrange(b.len() - 3, b.len() as int) =~= ".zstd"@.subrange(2, 5));
    assert(b.subrange(b.len() - 4, b.len() as int) =~= ".zstd"@.subrange(1, 5));
    lemma_differs_from_end(a, ext_of(registered_names()[0]), 0);
    lemma_differs_from_end(a, ext_of(registered_names()[1]), 0);
    lemma_differs_from_end(b, ext_of(registered_names()[0]), 0);
    lemma_differs_from_end(b, ext_of(registered_names()[1]), 1);
    lemma_differs_from_end(b, ext_of(registered_names()[2]), 0);
    lemma_differs_from_end(b, ext_of(registered_names()[3]), 0);
}

impl Default for Compression {
    /// The preferred compressor, gzip.
    fn default() -> (z: Compression)
        ensures
            is_registered(z, 0),
    {
        Self::pigz()
    }
}

} // verus!
