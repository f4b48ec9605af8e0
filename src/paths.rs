//! Percent-encoding, and the resolution of request paths to files under a
//! root that they may not leave.

use vstd::prelude::*;
use vstd::utf8::{encode_utf8, decode_utf8, valid_utf8};
use crate::net::digit_char;
use crate::access::{ApiError, Route};
use crate::environment::OperationEnv;
use crate::net::PeerAddr;

verus! {

/// A byte that percent-encoding leaves as it is: an ASCII letter or digit,
/// or one of `-`, `.`, `_`, `~`.
pub open spec fn is_unreserved(b: u8) -> bool {
    (48 <= b <= 57) || (65 <= b <= 90) || (97 <= b <= 122) || b == 45 || b == 46 || b == 95
        || b == 126
}

/// An upper-case hexadecimal digit.
pub open spec fn hex_char(d: nat) -> char {
    if d < 10 {
        digit_char(d)
    } else if d == 10 {
        'A'
    } else if d == 11 {
        'B'
    } else if d == 12 {
        'C'
    } else if d == 13 {
        'D'
    } else if d == 14 {
        'E'
    } else {
        'F'
    }
}

/// The percent-encoding of one byte.
pub open spec fn encoded_byte(b: u8) -> Seq<char> {
    if is_unreserved(b) {
        seq![b as char]
    } else {
        seq!['%', hex_char(b as nat / 16), hex_char(b as nat % 16)]
    }
}

/// The percent-encoding of a byte string: every byte but the unreserved ones
/// becomes `%` and two upper-case hexadecimal digits.
pub open spec fn percent_encoded(bytes: Seq<u8>) -> Seq<char>
    decreases bytes.len(),
{
    if bytes.len() == 0 {
        Seq::empty()
    } else {
        percent_encoded(bytes.drop_last()) + encoded_byte(bytes.last())
    }
}

/// The value of a hexadecimal digit, in either case.
pub open spec fn hex_value(b: u8) -> Option<u8> {
    if 48 <= b <= 57 {
        Some((b - 48) as u8)
    } else if 65 <= b <= 70 {
        Some((b - 55) as u8)
    } else if 97 <= b <= 102 {
        Some((b - 87) as u8)
    } else {
        None
    }
}

/// Percent-decoding on bytes: `%` and two hexadecimal digits become the byte
/// they spell; anything else, a lone `%` included, stays as it is.
pub open spec fn percent_decoded_bytes(b: Seq<u8>) -> Seq<u8>
    decreases b.len(),
{
    if b.len() == 0 {
        Seq::empty()
    } else if b[0] == 37 && b.len() >= 3 && hex_value(b[1]) is Some && hex_value(b[2]) is Some {
        seq![(hex_value(b[1])->0 * 16 + hex_value(b[2])->0) as u8] + percent_decoded_bytes(
            b.subrange(3, b.len() as int),
        )
    } else {
        seq![b[0]] + percent_decoded_bytes(b.drop_first())
    }
}

/// The text that percent-decoding `s` gives, or none where the decoded bytes
/// are not UTF-8.
pub open spec fn percent_decoded(s: Seq<char>) -> Option<Seq<char>> {
    let d = percent_decoded_bytes(encode_utf8(s));
    if valid_utf8(d) {
        Some(decode_utf8(d))
    } else {
        None
    }
}

/// Relies on `urlencoding::encode`: it percent-encodes every UTF-8 byte of
/// its argument except ASCII letters, digits and `-`, `.`, `_`, `~`.
#[verifier::external_body]
pub(crate) fn percent_encode(s: &str) -> (r: String)
    ensures
        r@ == percent_encoded(encode_utf8(s@)),
{
    urlencoding::encode(s).into_owned()
}

/// Relies on `urlencoding::decode`: it decodes `%XX` sequences on the bytes,
/// leaves all else, and fails exactly where the result is not UTF-8.
#[verifier::external_body]
fn percent_decode(s: &str) -> (r: Option<String>)
    ensures
        match r {
            Some(t) => percent_decoded(s@) == Some(t@),
            None => percent_decoded(s@) is None,
        },
{
    match urlencoding::decode(s) {
        Ok(t) => Some(t.into_owned()),
        Err(_) => None,
    }
}

/// Whether two texts are equal.
pub fn same_text(a: &str, b: &str) -> (r: bool)
    ensures
        r == (a@ == b@),
{
    a.to_owned() == b.to_owned()
}

/// Whether `s` ends with `suffix`.
pub fn ends_with(s: &str, suffix: &str) -> (r: bool)
    ensures
        r == (suffix@.len() <= s@.len() && s@.subrange(
            s@.len() - suffix@.len(),
            s@.len() as int,
        ) == suffix@),
{
    let n = s.unicode_len();
    let k = suffix.unicode_len();
    if k > n {
        return false;
    }
    same_text(s.substring_char(n - k, n), suffix)
}

/// The components of a path: the texts between its `/` separators, empty
/// ones included.
pub open spec fn split_components(p: Seq<char>) -> Seq<Seq<char>>
    decreases p.len(),
{
    if p.len() == 0 {
        seq![Seq::empty()]
    } else {
        let s = split_components(p.drop_last());
        if p.last() == '/' {
            s.push(Seq::empty())
        } else {
            s.update(s.len() - 1, s.last().push(p.last()))
        }
    }
}

/// One component applied to the components kept so far: an empty one and
/// `.` change nothing, `..` removes the last kept one and fails where none
/// is left, any other is kept.
pub open spec fn step_component(kept: Option<Seq<Seq<char>>>, c: Seq<char>) -> Option<
    Seq<Seq<char>>,
> {
    match kept {
        None => None,
        Some(k) => if c.len() == 0 || c == seq!['.'] {
            Some(k)
        } else if c == seq!['.', '.'] {
            if k.len() == 0 {
                None
            } else {
                Some(k.drop_last())
            }
        } else {
            Some(k.push(c))
        },
    }
}

/// The components that remain once `.`, `..` and empty ones are resolved, or
/// none where a `..` would climb above the start.
pub open spec fn resolve_components(cs: Seq<Seq<char>>) -> Option<Seq<Seq<char>>>
    decreases cs.len(),
{
    if cs.len() == 0 {
        Some(Seq::empty())
    } else {
        step_component(resolve_components(cs.drop_last()), cs.last())
    }
}

/// Components put back together with `/` between them.
pub open spec fn join_components(cs: Seq<Seq<char>>) -> Seq<char>
    decreases cs.len(),
{
    if cs.len() == 0 {
        Seq::empty()
    } else if cs.len() == 1 {
        cs[0]
    } else {
        join_components(cs.drop_last()) + seq!['/'] + cs.last()
    }
}

/// The normal form of a relative path, worked out on its text alone: `.` and
/// empty components dropped, each `..` taking away the component before it.
/// None where the path is absolute or a `..` would climb above its start;
/// joined to a root, the normal form names something under that root.
pub open spec fn normalized(p: Seq<char>) -> Option<Seq<char>> {
    if p.len() > 0 && p[0] == '/' {
        None
    } else {
        match resolve_components(split_components(p)) {
            Some(cs) => Some(join_components(cs)),
            None => None,
        }
    }
}

/// What normalisation keeps holds no empty, `.` or `..` component: joined
/// to a root, a normal form can only go down from it.
pub proof fn lemma_normal_form_descends(cs: Seq<Seq<char>>)
    ensures
        resolve_components(cs) matches Some(k) ==> forall|i: int|
            0 <= i < k.len() ==> (#[trigger] k[i]).len() > 0 && k[i] != seq!['.'] && k[i] != seq![
                '.',
                '.',
            ],
    decreases cs.len(),
{
    if cs.len() > 0 {
        lemma_normal_form_descends(cs.drop_last());
    }
}

fn join_parts(parts: &Vec<String>) -> (r: String)
    ensures
        r@ == join_components(parts@.map_values(|s: String| s@)),
{
    let mut r = String::new();
    let mut i: usize = 0;
    while i < parts.len()
        invariant
            i <= parts@.len(),
            r@ == join_components(parts@.map_values(|s: String| s@).take(i as int)),
        decreases parts@.len() - i,
    {
        let ghost cs = parts@.map_values(|s: String| s@);
        assert(cs.take(i + 1).drop_last() =~= cs.take(i as int));
        if i > 0 {
            r.append("/");
            proof {
                reveal_strlit("/");
            }
        }
        r.append(parts[i].as_str());
        i += 1;
        proof {
            if i == 1 {
                assert(r@ =~= join_components(cs.take(i as int)));
            }
        }
    }
    assert(parts@.map_values(|s: String| s@).take(i as int) =~= parts@.map_values(|s: String| s@));
    r
}

/// Applies one component to the kept ones, as `step_component` says; clears
/// `ok` where it fails.
fn apply_component(kept: &mut Vec<String>, ok: &mut bool, c: &str)
    ensures
        step_component(
            if *old(ok) {
                Some(old(kept)@.map_values(|s: String| s@))
            } else {
                None
            },
            c@,
        ) == if *final(ok) {
            Some(final(kept)@.map_values(|s: String| s@))
        } else {
            None::<Seq<Seq<char>>>
        },
{
    if !*ok {
        return;
    }
    let n = c.unicode_len();
    if n == 0 || (n == 1 && c.get_char(0) == '.') {
        proof {
            if n == 1 {
                assert(c@ =~= seq!['.']);
            }
        }
        return;
    }
    if n == 2 && c.get_char(0) == '.' && c.get_char(1) == '.' {
        assert(c@ =~= seq!['.', '.']);
        if kept.len() == 0 {
            *ok = false;
        } else {
            let ghost before = kept@;
            kept.pop();
            assert(kept@.map_values(|s: String| s@) =~= before.map_values(|s: String| s@).drop_last());
        }
        return;
    }
    assert(c@ != seq!['.']);
    assert(c@ != seq!['.', '.']);
    let ghost before = kept@;
    kept.push(c.to_owned());
    assert(kept@.map_values(|s: String| s@) =~= before.map_values(|s: String| s@).push(c@));
}

/// The normal form of a relative path, or none where it would leave its root.
pub fn normalize(rel: &str) -> (r: Option<String>)
    ensures
        match normalized(rel@) {
            Some(p) => r matches Some(s) && s@ == p,
            None => r is None,
        },
{
    let n = rel.unicode_len();
    if n > 0 && rel.get_char(0) == '/' {
        return None;
    }
    let mut kept: Vec<String> = Vec::new();
    let mut ok = true;
    let mut start: usize = 0;
    let mut i: usize = 0;
    let ghost mut done: Seq<Seq<char>> = Seq::empty();
    assert(rel@.take(0) =~= Seq::<char>::empty());
    assert(rel@.subrange(0, 0) =~= Seq::<char>::empty());
    assert(split_components(Seq::<char>::empty()) == seq![Seq::<char>::empty()]);
    assert(seq![Seq::<char>::empty()] =~= done.push(rel@.subrange(0, 0)));
    while i < n
        invariant
            n == rel@.len(),
            start <= i <= n,
            split_components(rel@.take(i as int)) == done.push(rel@.subrange(start as int, i as int)),
            resolve_components(done) == if ok {
                Some(kept@.map_values(|s: String| s@))
            } else {
                None::<Seq<Seq<char>>>
            },
        decreases n - i,
    {
        let ghost t = rel@.take(i + 1);
        assert(t.drop_last() =~= rel@.take(i as int));
        if rel.get_char(i) == '/' {
            let c = rel.substring_char(start, i);
            apply_component(&mut kept, &mut ok, c);
            proof {
                assert(done.push(c@).drop_last() =~= done);
                assert(t.last() == '/');
                assert(split_components(t) == split_components(rel@.take(i as int)).push(
                    Seq::<char>::empty(),
                ));
                done = done.push(c@);
                assert(rel@.subrange((i + 1) as int, (i + 1) as int) =~= Seq::<char>::empty());
            }
            start = i + 1;
        } else {
            proof {
                let s = split_components(rel@.take(i as int));
                assert(t.last() == rel@[i as int]);
                assert(rel@.subrange(start as int, i as int).push(rel@[i as int]) =~= rel@.subrange(
                    start as int,
                    i + 1,
                ));
                assert(s.last() == rel@.subrange(start as int, i as int));
                assert(s.update(s.len() - 1, s.last().push(rel@[i as int])) =~= done.push(
                    rel@.subrange(start as int, i + 1),
                ));
            }
        }
        i += 1;
    }
    let c = rel.substring_char(start, n);
    apply_component(&mut kept, &mut ok, c);
    proof {
        assert(rel@.take(n as int) =~= rel@);
        assert(done.push(c@).drop_last() =~= done);
    }
    if ok {
        Some(join_parts(&kept))
    } else {
        None
    }
}

/// `rel` joined to `root`, with a `/` between them where `root` does not
/// already end with one.
pub open spec fn joined(root: Seq<char>, rel: Seq<char>) -> Seq<char> {
    if root.len() > 0 && root.last() != '/' {
        root + seq!['/'] + rel
    } else {
        root + rel
    }
}

pub fn join(root: &str, rel: &str) -> (r: String)
    ensures
        r@ == joined(root@, rel@),
{
    let mut r = root.to_owned();
    let n = root.unicode_len();
    if n > 0 && root.get_char(n - 1) != '/' {
        r.append("/");
        proof {
            reveal_strlit("/");
        }
    }
    r.append(rel);
    r
}

/// The extensions of the media files that are served.
pub open spec fn media_extensions() -> Seq<Seq<char>> {
    seq![
        "mp3"@,
        "mp4"@,
        "m4a"@,
        "wma"@,
        "aac"@,
        "ogg"@,
        "flac"@,
        "alac"@,
        "aiff"@,
        "wav"@,
    ]
}

/// `p` ends with a dot and the extension `ext`.
pub open spec fn has_extension(p: Seq<char>, ext: Seq<char>) -> bool {
    ext.len() + 1 <= p.len() && p.subrange(p.len() - ext.len() - 1, p.len() as int) == seq!['.']
        + ext
}

/// `p` names a file of one of the served media types.
pub open spec fn is_media_file(p: Seq<char>) -> bool {
    exists|k: int| 0 <= k < media_extensions().len() && has_extension(p, media_extensions()[k])
}

fn media_suffixes() -> (r: Vec<&'static str>)
    ensures
        r@.len() == media_extensions().len(),
        forall|k: int| 0 <= k < r@.len() ==> #[trigger] r@[k]@ == seq!['.'] + media_extensions()[k],
{
    proof {
        reveal_strlit(".mp3");
        reveal_strlit(".mp4");
        reveal_strlit(".m4a");
        reveal_strlit(".wma");
        reveal_strlit(".aac");
        reveal_strlit(".ogg");
        reveal_strlit(".flac");
        reveal_strlit(".alac");
        reveal_strlit(".aiff");
        reveal_strlit(".wav");
        reveal_strlit("mp3");
        reveal_strlit("mp4");
        reveal_strlit("m4a");
        reveal_strlit("wma");
        reveal_strlit("aac");
        reveal_strlit("ogg");
        reveal_strlit("flac");
        reveal_strlit("alac");
        reveal_strlit("aiff");
        reveal_strlit("wav");
    }
    let r = vec![".mp3", ".mp4", ".m4a", ".wma", ".aac", ".ogg", ".flac", ".alac", ".aiff", ".wav"];
    assert forall|k: int| 0 <= k < r@.len() implies #[trigger] r@[k]@ == seq!['.']
        + media_extensions()[k] by {
        assert(r@[k]@ =~= seq!['.'] + media_extensions()[k]);
    }
    r
}

/// Whether `p` names a file of one of the served media types.
pub fn has_media_extension(p: &str) -> (r: bool)
    ensures
        r == is_media_file(p@),
{
    let suffixes = media_suffixes();
    let mut k: usize = 0;
    while k < suffixes.len()
        invariant
            suffixes@.len() == media_extensions().len(),
            forall|m: int| 0 <= m < suffixes@.len() ==> #[trigger] suffixes@[m]@ == seq!['.']
                + media_extensions()[m],
            forall|m: int| 0 <= m < k ==> !has_extension(p@, #[trigger] media_extensions()[m]),
        decreases suffixes@.len() - k,
    {
        if ends_with(p, suffixes[k]) {
            assert(has_extension(p@, media_extensions()[k as int]));
            return true;
        }
        k += 1;
    }
    false
}

/// The file that a `/files` request names: the normal form of the decoded
/// path under the media root, if it decodes, stays under the root and names
/// a media file.
pub open spec fn media_target(root: Seq<char>, encoded: Seq<char>) -> Option<Seq<char>> {
    match percent_decoded(encoded) {
        Some(rel) => match normalized(rel) {
            Some(p) => if is_media_file(p) {
                Some(joined(root, p))
            } else {
                None
            },
            None => None,
        },
        None => None,
    }
}

/// Resolves the path of a `/files` request to a file under `root`. A path
/// that does not decode, names no media file or would leave the root is not
/// found.
pub fn media_file_path(root: &str, encoded: &str) -> (r: Result<String, ApiError>)
    ensures
        match media_target(root@, encoded@) {
            Some(p) => r matches Ok(s) && s@ == p,
            None => r == Err::<String, ApiError>(ApiError::NotFound),
        },
{
    match percent_decode(encoded) {
        Some(rel) => match normalize(rel.as_str()) {
            Some(p) => if has_media_extension(p.as_str()) {
                Ok(join(root, p.as_str()))
            } else {
                Err(ApiError::NotFound)
            },
            None => Err(ApiError::NotFound),
        },
        None => Err(ApiError::NotFound),
    }
}

/// The directory the frontend's files are served from.
pub const FRONTEND_ROOT: &'static str = "./web/";

/// The document served for the empty path.
pub const FRONTEND_INDEX: &'static str = "index.html";

/// The file that a frontend request names: the normal form of the decoded
/// path, or the default document for the empty path, under the frontend root.
pub open spec fn frontend_target(encoded: Seq<char>) -> Option<Seq<char>> {
    match percent_decoded(encoded) {
        Some(rel) => if rel.len() == 0 {
            Some(joined(FRONTEND_ROOT@, FRONTEND_INDEX@))
        } else {
            match normalized(rel) {
                Some(p) => Some(joined(FRONTEND_ROOT@, p)),
                None => None,
            }
        },
        None => None,
    }
}

/// Resolves the path of a frontend request to a file under the frontend root.
pub fn frontend_file_path(encoded: &str) -> (r: Result<String, ApiError>)
    ensures
        match frontend_target(encoded@) {
            Some(p) => r matches Ok(s) && s@ == p,
            None => r == Err::<String, ApiError>(ApiError::NotFound),
        },
{
    match percent_decode(encoded) {
        Some(rel) => {
            if rel.as_str().unicode_len() == 0 {
                Ok(join(FRONTEND_ROOT, FRONTEND_INDEX))
            } else {
                match normalize(rel.as_str()) {
                    Some(p) => Ok(join(FRONTEND_ROOT, p.as_str())),
                    None => Err(ApiError::NotFound),
                }
            }
        },
        None => Err(ApiError::NotFound),
    }
}

/// Decides a media file request from `peer`: this machine and the known
/// speakers are admitted; the file is resolved under the media root.
pub fn serve_media(env: &OperationEnv, peer: PeerAddr, encoded: &str) -> (r: Result<
    String,
    ApiError,
>)
    ensures
        !env.spec_admits(Route::Files, peer) ==> r == Err::<String, ApiError>(ApiError::Forbidden),
        env.spec_admits(Route::Files, peer) ==> match media_target(env.root@, encoded@) {
            Some(p) => r matches Ok(s) && s@ == p,
            None => r == Err::<String, ApiError>(ApiError::NotFound),
        },
{
    if !env.admits(Route::Files, peer) {
        return Err(ApiError::Forbidden);
    }
    media_file_path(env.root.as_str(), encoded)
}

/// Decides a frontend request from `peer`.
pub fn serve_frontend(env: &OperationEnv, peer: PeerAddr, encoded: &str) -> (r: Result<
    String,
    ApiError,
>)
    ensures
        !env.spec_admits(Route::Frontend, peer) ==> r == Err::<String, ApiError>(
            ApiError::Forbidden,
        ),
        env.spec_admits(Route::Frontend, peer) ==> match frontend_target(encoded@) {
            Some(p) => r matches Ok(s) && s@ == p,
            None => r == Err::<String, ApiError>(ApiError::NotFound),
        },
{
    if !env.admits(Route::Frontend, peer) {
        return Err(ApiError::Forbidden);
    }
    frontend_file_path(encoded)
}

/// `p` is `root` itself or lies below it, component-wise.
pub open spec fn lies_under(root: Seq<char>, p: Seq<char>) -> bool {
    p == root || (root.len() < p.len() && p.subrange(0, root.len() as int) == root && ((
    root.len() > 0 && root.last() == '/') || p[root.len() as int] == '/'))
}

/// Whether `p` is `root` or lies below it. Given the canonical forms of a
/// root and of a resolved file, this tells whether links led out of the root.
pub fn is_under(root: &str, p: &str) -> (r: bool)
    ensures
        r == lies_under(root@, p@),
{
    let n = root.unicode_len();
    let m = p.unicode_len();
    if same_text(root, p) {
        return true;
    }
    if n >= m {
        return false;
    }
    if !same_text(p.substring_char(0, n), root) {
        return false;
    }
    (n > 0 && root.get_char(n - 1) == '/') || p.get_char(n) == '/'
}

} // verus!
