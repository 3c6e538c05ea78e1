//! Where Murmur keeps its files. A path is the bytes the file system sees.

use vstd::prelude::*;

use crate::labels;
use crate::labels::number;
use crate::text::{chars_of, concat, substring};

verus! {

/// The byte between the parts of a path.
pub const SEPARATOR: u8 = 47;

/// The bytes of a text.
pub open spec fn bytes_of(s: Seq<char>) -> Seq<u8> {
    vstd::utf8::encode_utf8(s)
}

/// A path inside a directory. An absolute path stands for itself.
pub open spec fn joined(base: Seq<u8>, name: Seq<u8>) -> Seq<u8> {
    if name.len() > 0 && name[0] == SEPARATOR {
        name
    } else if base.len() > 0 && base.last() != SEPARATOR {
        base.push(SEPARATOR) + name
    } else {
        base + name
    }
}

/// Murmur's part of a base directory, or of a fallback where there is none.
pub open spec fn murmur_dir(base: Option<Seq<u8>>, fallback: Seq<u8>) -> Seq<u8> {
    joined(
        match base {
            Some(b) => b,
            None => fallback,
        },
        bytes_of("murmur"@),
    )
}

/// The bytes of an optional path.
pub open spec fn opt_bytes(path: Option<Vec<u8>>) -> Option<Seq<u8>> {
    match path {
        Some(p) => Some(p@),
        None => None,
    }
}

/// A path inside a directory.
pub fn join_path(base: &Vec<u8>, name: &str) -> (r: Vec<u8>)
    ensures
        r@ == joined(base@, bytes_of(name@)),
{
    let bytes = name.as_bytes();
    let mut out: Vec<u8> = Vec::new();
    if !(bytes.len() > 0 && bytes[0] == SEPARATOR) {
        let mut i: usize = 0;
        while i < base.len()
            invariant
                i <= base@.len(),
                out@ == base@.take(i as int),
            decreases base@.len() - i,
        {
            out.push(base[i]);
            i = i + 1;
        }
        if base.len() > 0 && base[base.len() - 1] != SEPARATOR {
            out.push(SEPARATOR);
        }
    }
    let ghost front = out@;
    let mut k: usize = 0;
    while k < bytes.len()
        invariant
            k <= bytes@.len(),
            out@ == front + bytes@.take(k as int),
        decreases bytes@.len() - k,
    {
        out.push(bytes[k]);
        k = k + 1;
    }
    out
}

/// The bytes of a string.
fn path_from(s: &str) -> (r: Vec<u8>)
    ensures
        r@ == bytes_of(s@),
{
    s.as_bytes_vec()
}

/// Calls `dirs::config_dir`, and gives the path as bytes. The environment
/// decides the answer, so nothing is said of it.
#[verifier::external_body]
fn system_config_dir() -> (r: Option<Vec<u8>>) {
    dirs::config_dir().map(|p| p.into_os_string().into_encoded_bytes())
}

/// Calls `dirs::data_dir`, and gives the path as bytes. The environment
/// decides the answer, so nothing is said of it.
#[verifier::external_body]
fn system_data_dir() -> (r: Option<Vec<u8>>) {
    dirs::data_dir().map(|p| p.into_os_string().into_encoded_bytes())
}

/// Murmur's configuration directory below the user's.
pub fn config_dir_below(base: Option<Vec<u8>>) -> (r: Vec<u8>)
    ensures
        r@ == murmur_dir(opt_bytes(base), bytes_of("~/.config"@)),
{
    match base {
        Some(b) => join_path(&b, "murmur"),
        None => join_path(&path_from("~/.config"), "murmur"),
    }
}

/// Murmur's data directory below the user's.
pub fn data_dir_below(base: Option<Vec<u8>>) -> (r: Vec<u8>)
    ensures
        r@ == murmur_dir(opt_bytes(base), bytes_of("~/.local/share"@)),
{
    match base {
        Some(b) => join_path(&b, "murmur"),
        None => join_path(&path_from("~/.local/share"), "murmur"),
    }
}

/// Murmur's configuration directory.
pub fn config_dir() -> (r: Vec<u8>)
    ensures
        exists|base: Option<Seq<u8>>| r@ == #[trigger] murmur_dir(base, bytes_of("~/.config"@)),
{
    let base = system_config_dir();
    let r = config_dir_below(base);
    r
}

/// Murmur's data directory.
pub fn data_dir() -> (r: Vec<u8>)
    ensures
        exists|base: Option<Seq<u8>>|
            r@ == #[trigger] murmur_dir(base, bytes_of("~/.local/share"@)),
{
    let base = system_data_dir();
    let r = data_dir_below(base);
    r
}

/// The configuration file.
pub fn config_path() -> (r: Vec<u8>)
    ensures
        exists|base: Option<Seq<u8>>|
            r@ == joined(
                #[trigger] murmur_dir(base, bytes_of("~/.config"@)),
                bytes_of("config.toml"@),
            ),
{
    join_path(&config_dir(), "config.toml")
}

/// The directory for log files: in the cache directory if one is set, else in
/// `.cache` below the home directory.
pub open spec fn log_dir_of(cache: Option<Seq<u8>>, home: Option<Seq<u8>>) -> Seq<u8> {
    murmur_dir(
        cache,
        joined(
            match home {
                Some(h) => h,
                None => seq![],
            },
            bytes_of(".cache"@),
        ),
    )
}

/// The directory for log files.
pub fn log_dir(cache: Option<Vec<u8>>, home: Option<Vec<u8>>) -> (r: Vec<u8>)
    ensures
        r@ == log_dir_of(opt_bytes(cache), opt_bytes(home)),
{
    match cache {
        Some(c) => join_path(&c, "murmur"),
        None => {
            let base = match home {
                Some(h) => h,
                None => Vec::new(),
            };
            join_path(&join_path(&base, ".cache"), "murmur")
        },
    }
}

/// The log file of a program.
pub fn log_path(cache: Option<Vec<u8>>, home: Option<Vec<u8>>, name: &str) -> (r: Vec<u8>)
    ensures
        r@ == joined(log_dir_of(opt_bytes(cache), opt_bytes(home)), bytes_of(name@ + ".log"@)),
{
    join_path(&log_dir(cache, home), concat(name, ".log").as_str())
}

/// The program to run for a name: the one next to the current program, whose
/// directory is given, or else the one that the search path has. `exists`
/// says whether there is one next to it.
pub fn sibling_exe(dir: Option<Vec<u8>>, exists: bool, name: &str) -> (r: Vec<u8>)
    ensures
        r@ == (match dir {
            Some(d) => if exists {
                joined(d@, bytes_of(name@))
            } else {
                bytes_of(name@)
            },
            None => bytes_of(name@),
        }),
{
    if let Some(d) = dir {
        if exists {
            return join_path(&d, name);
        }
    }
    path_from(name)
}

/// The name of the file that a new configuration is first written to.
pub open spec fn temp_name(pid: nat, nanos: nat) -> Seq<char> {
    "config.toml."@ + labels::decimal(pid) + "."@ + labels::decimal(nanos) + ".tmp"@
}

/// The name of the file that a new configuration is first written to, before
/// it is renamed. The process and the time are part of it, so that two writers
/// do not share one.
pub fn config_temp_name(pid: u32, nanos: u32) -> (r: String)
    ensures
        r@ == temp_name(pid as nat, nanos as nat),
{
    let a = concat("config.toml.", number(pid as u64).as_str());
    let b = concat(a.as_str(), ".");
    let c = concat(b.as_str(), number(nanos as u64).as_str());
    concat(c.as_str(), ".tmp")
}

/// Writers in different processes, or at different times, use different
/// files.
pub proof fn temp_names_are_unique(pid_a: nat, nanos_a: nat, pid_b: nat, nanos_b: nat)
    requires
        temp_name(pid_a, nanos_a) == temp_name(pid_b, nanos_b),
    ensures
        pid_a == pid_b,
        nanos_a == nanos_b,
{
    reveal_strlit("config.toml.");
    reveal_strlit(".");
    reveal_strlit(".tmp");
    let head = "config.toml."@;
    let pa = labels::decimal(pid_a);
    let pb = labels::decimal(pid_b);
    let na = labels::decimal(nanos_a);
    let nb = labels::decimal(nanos_b);
    let whole = temp_name(pid_a, nanos_a);
    labels::lemma_decimal_digits(pid_a);
    labels::lemma_decimal_digits(pid_b);
    let h = head.len() as int;
    assert(forall|i: int| 0 <= i < pa.len() ==> whole[h + i] == #[trigger] pa[i]);
    assert(whole[h + pa.len()] == '.');
    assert(whole[h + pb.len()] == '.');
    assert(pa == pb);
    labels::lemma_decimal_injective(pid_a, pid_b);
    let n = h + pa.len() + 1;
    assert(na == whole.subrange(n, whole.len() - 4));
    assert(nb == whole.subrange(n, whole.len() - 4));
    labels::lemma_decimal_injective(nanos_a, nanos_b);
}

/// Where the last full stop of a name is.
pub open spec fn last_stop(name: Seq<char>) -> int
    decreases name.len(),
{
    if name.len() == 0 {
        -1
    } else if name.last() == '.' {
        name.len() - 1
    } else {
        last_stop(name.drop_last())
    }
}

/// The name of an unfinished download of a file: its extension becomes
/// `part`.
pub open spec fn part_of(name: Seq<char>) -> Seq<char> {
    (if last_stop(name) > 0 {
        name.take(last_stop(name))
    } else {
        name
    }) + ".part"@
}

/// The last full stop lies within the name.
pub proof fn lemma_last_stop(name: Seq<char>)
    ensures
        -1 <= last_stop(name) < name.len(),
        last_stop(name) >= 0 ==> name[last_stop(name)] == '.',
    decreases name.len(),
{
    if name.len() > 0 && name.last() != '.' {
        lemma_last_stop(name.drop_last());
    }
}

/// The name of an unfinished download of a file. The name is that of a file:
/// neither empty nor `.` nor `..`, and not a path.
pub fn part_name(name: &str) -> (r: String)
    requires
        name@.len() > 0,
        name@ != "."@,
        name@ != ".."@,
        !name@.contains('/'),
    ensures
        r@ == part_of(name@),
{
    let c = chars_of(name);
    let mut n: usize = c.len();
    assert(c@.take(n as int) == c@);
    while n > 0 && c[n - 1] != '.'
        invariant
            n <= c@.len(),
            last_stop(c@) == last_stop(c@.take(n as int)),
        decreases n,
    {
        assert(c@.take(n as int).drop_last() == c@.take(n - 1));
        n = n - 1;
    }
    if n > 1 {
        let stem = substring(&c, 0, n - 1);
        concat(stem.as_str(), ".part")
    } else {
        concat(name, ".part")
    }
}

/// An unfinished download never has the name of the finished file, unless
/// that name ends in `.part` itself.
pub proof fn part_is_not_the_file(name: Seq<char>)
    requires
        !labels::ends_with(name, ".part"@),
    ensures
        part_of(name) != name,
{
    lemma_last_stop(name);
    let p = part_of(name);
    reveal_strlit(".part");
    assert(p.skip(p.len() - 5) == ".part"@);
}

/// A relative name is put behind the directory, with one separator between them
/// unless the directory ends in one; an absolute path stands for itself.
pub proof fn names_are_put_behind_directories(base: Seq<u8>, name: Seq<u8>)
    ensures
        ({
            let path = joined(base, name);
            let absolute = name.len() > 0 && name[0] == 47;
            let bridge = base.len() > 0 && base.last() != 47;
            &&& absolute ==> path == name
            &&& !absolute && bridge ==> path == base + seq![47u8] + name
            &&& !absolute && !bridge ==> path == base + name
        }),
{
    assert(base.push(47) + name =~= base + seq![47u8] + name);
}

/// Murmur's directory lies in the base directory, and in the fallback only
/// where there is none.
pub proof fn fallbacks_are_for_missing_directories(
    base: Seq<u8>,
    fallback: Seq<u8>,
    home: Option<Seq<u8>>,
)
    ensures
        murmur_dir(Some(base), fallback) == joined(base, bytes_of("murmur"@)),
        murmur_dir(None, fallback) == joined(fallback, bytes_of("murmur"@)),
        log_dir_of(Some(base), home) == joined(base, bytes_of("murmur"@)),
        log_dir_of(None, Some(base)) == joined(
            joined(base, bytes_of(".cache"@)),
            bytes_of("murmur"@),
        ),
{
}

/// The last full stop is the last: none follows it.
pub proof fn no_stop_follows_the_last(name: Seq<char>)
    ensures
        forall|i: int| last_stop(name) < i < name.len() ==> #[trigger] name[i] != '.',
    decreases name.len(),
{
    if name.len() > 0 && name.last() != '.' {
        let front = name.drop_last();
        no_stop_follows_the_last(front);
        lemma_last_stop(name);
        assert forall|i: int| last_stop(name) < i < name.len() implies #[trigger] name[i]
            != '.' by {
            if i < name.len() - 1 {
                assert(front[i] == name[i]);
            }
        }
    }
}

/// An unfinished download is called like the file, with another extension: what
/// stands before the last full stop of the name stays, unless nothing does.
pub proof fn parts_are_called_like_their_file(stem: Seq<char>, extension: Seq<char>)
    requires
        stem.len() > 0,
        forall|i: int| 0 <= i < extension.len() ==> #[trigger] extension[i] != '.',
    ensures
        part_of(stem.push('.') + extension) == stem + ".part"@,
        part_of(extension) == extension + ".part"@,
{
    let name = stem.push('.') + extension;
    lemma_last_stop(name);
    no_stop_follows_the_last(name);
    assert(name[stem.len() as int] == '.');
    assert(last_stop(name) == stem.len()) by {
        if last_stop(name) > stem.len() {
            assert(name[last_stop(name)] == extension[last_stop(name) - stem.len() - 1]);
        }
    }
    assert(name.take(stem.len() as int) =~= stem);
    lemma_last_stop(extension);
}

} // verus!
