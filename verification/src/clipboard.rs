//! Image paths pasted as text: a single shell word naming a file, a
//! `file://` URL, or a path under the home directory.

use vstd::prelude::*;
use vstd::string::*;
use crate::outside::{parse_url, shell_words, shlex_words, url_file_path, url_file_path_of, url_parses};
use crate::text::{
    chars_between, has_prefix_at, owned, push_char, str_chars, string_from_chars, trim_spec, trim_str,
    utf8_count, utf8_len,
};

verus! {

/// The longest pasted text taken as a path, in bytes.
pub const MAX_PASTED_PATH_BYTES: usize = 4096;

/// Whether `p` is a `file://` URL.
pub open spec fn is_file_url(p: Seq<char>) -> bool {
    "file://"@.is_prefix_of(p)
}

/// `rel` under `home`, as a path join does it: an absolute `rel` stands
/// alone, and one separator goes between.
pub open spec fn join_home(home: Seq<char>, rel: Seq<char>) -> Seq<char> {
    if rel.len() > 0 && rel[0] == '/' {
        rel
    } else if home.len() == 0 {
        rel
    } else if home.last() == '/' {
        home + rel
    } else {
        home + seq!['/'] + rel
    }
}

/// The path that the words of a pasted text name, when they are one word:
/// a `file://` URL gives the local path that `url` finds in it, and `~/`
/// paths resolve under `home`.
pub open spec fn image_path_spec(words: Option<Seq<Seq<char>>>, home: Option<Seq<char>>) -> Option<
    Seq<char>,
> {
    match words {
        None => None,
        Some(ws) => if ws.len() != 1 {
            None
        } else {
            let p = ws[0];
            if is_file_url(p) {
                if url_parses(p) {
                    url_file_path_of(p)
                } else {
                    None
                }
            } else if "~/"@.is_prefix_of(p) {
                match home {
                    Some(h) => Some(join_home(h, p.skip(2))),
                    None => None,
                }
            } else {
                Some(p)
            }
        },
    }
}

/// Whether pasted text is too long or spans lines: it is then no path.
pub open spec fn pasted_text_refused(t: Seq<char>) -> bool {
    utf8_len(t) > MAX_PASTED_PATH_BYTES || t.contains('\n') || t.contains('\r') || t.contains('\0')
}

pub open spec fn opt_view(s: Option<String>) -> Option<Seq<char>> {
    match s {
        Some(v) => Some(v@),
        None => None,
    }
}

pub open spec fn opt_str_view(s: Option<&str>) -> Option<Seq<char>> {
    match s {
        Some(v) => Some(v@),
        None => None,
    }
}

fn starts_with(s: &Vec<char>, lit: &[char]) -> (r: bool)
    ensures
        r == lit@.is_prefix_of(s@),
{
    if lit.len() > s.len() {
        return false;
    }
    let r = has_prefix_at(s, 0, lit);
    proof {
        assert(s@.subrange(0, lit@.len() as int) =~= s@.take(lit@.len() as int));
    }
    r
}

fn join_home_exec(home: &str, rel: &Vec<char>) -> (r: String)
    ensures
        r@ == join_home(home@, rel@),
{
    if rel.len() > 0 && rel[0] == '/' {
        return string_from_chars(rel.as_slice());
    }
    let home_chars = str_chars(home);
    if home_chars.len() == 0 {
        return string_from_chars(rel.as_slice());
    }
    let mut out = owned(home);
    if home_chars[home_chars.len() - 1] != '/' {
        push_char(&mut out, '/');
    }
    let tail = string_from_chars(rel.as_slice());
    out.append(tail.as_str());
    out
}

/// The path that the shell words of a pasted text name: one word, a
/// `file://` URL converted to its local path, a `~/` path under `home`, or
/// the word itself.
pub fn image_path_from_words(words: Option<Vec<String>>, home: Option<&str>) -> (r: Option<String>)
    ensures
        opt_view(r) == image_path_spec(
            match words {
                Some(v) => Some(v@.map_values(|w: String| w@)),
                None => None,
            },
            opt_str_view(home),
        ),
{
    let parts = match words {
        Some(parts) => parts,
        None => return None,
    };
    if parts.len() != 1 {
        return None;
    }
    let path = &parts[0];
    let chars = str_chars(path.as_str());
    let file_scheme = ['f', 'i', 'l', 'e', ':', '/', '/'];
    let home_prefix = ['~', '/'];
    proof {
        assert(file_scheme@ =~= "file://"@) by {
            reveal_strlit("file://");
        }
        assert(home_prefix@ =~= "~/"@) by {
            reveal_strlit("~/");
        }
        assert(parts@.map_values(|w: String| w@)[0] == path@);
    }
    if starts_with(&chars, &file_scheme) {
        let url = parse_url(path.as_str())?;
        return url_file_path(&url);
    }
    if starts_with(&chars, &home_prefix) {
        let home = home?;
        let rel = chars_between(&chars, 2, chars.len());
        proof {
            assert(rel@ =~= path@.skip(2));
        }
        return Some(join_home_exec(home, &rel));
    }
    Some(owned(path.as_str()))
}

fn has_line_break_or_nul(chars: &Vec<char>) -> (r: bool)
    ensures
        r == (chars@.contains('\n') || chars@.contains('\r') || chars@.contains('\0')),
{
    let mut i: usize = 0;
    while i < chars.len()
        invariant
            0 <= i <= chars@.len(),
            forall|j: int| 0 <= j < i ==> chars@[j] != '\n' && chars@[j] != '\r' && chars@[j] != '\0',
        decreases chars@.len() - i,
    {
        let c = chars[i];
        if c == '\n' || c == '\r' || c == '\0' {
            proof {
                assert(chars@[i as int] == c);
            }
            return true;
        }
        i = i + 1;
    }
    false
}

/// The path that pasted text names, if it is a single shell word of at
/// most 4096 bytes on one line. `home` is the home directory, for `~/` paths.
pub fn parse_image_path(text: &str, home: Option<&str>) -> (r: Option<String>)
    ensures
        pasted_text_refused(trim_spec(text@)) ==> r is None,
        !pasted_text_refused(trim_spec(text@)) ==> opt_view(r) == image_path_spec(shlex_words(trim_spec(text@)), opt_str_view(home)),
{
    let text = trim_str(text);
    let chars = str_chars(text);
    if utf8_count(text) > MAX_PASTED_PATH_BYTES as u128 || has_line_break_or_nul(&chars) {
        return None;
    }
    let words = shell_words(text);
    image_path_from_words(words, home)
}

/// The end of `p[..j]` without trailing separators.
pub open spec fn trim_slashes_end(p: Seq<char>, j: int) -> int
    decreases j,
{
    if j <= 0 || j > p.len() || p[j - 1] != '/' {
        j
    } else {
        trim_slashes_end(p, j - 1)
    }
}

/// The position after the last separator in `p[..j]` (0 when there is none).
pub open spec fn segment_start(p: Seq<char>, j: int) -> int
    decreases j,
{
    if j <= 0 || j > p.len() {
        0
    } else if p[j - 1] == '/' {
        j
    } else {
        segment_start(p, j - 1)
    }
}

/// The file name of the path `p[..j]`: its last component, skipping
/// trailing separators and `.` components; none for the root, `..` or an
/// empty path (`Path::file_name`).
pub open spec fn file_name_at(p: Seq<char>, j: int) -> Option<Seq<char>>
    decreases j,
{
    let e = trim_slashes_end(p, j);
    if e <= 0 || e > j {
        None
    } else {
        let start = segment_start(p, e);
        let seg = p.subrange(start, e);
        if seg == seq!['.'] {
            if 0 <= start < j {
                file_name_at(p, start)
            } else {
                None
            }
        } else if seg == seq!['.', '.'] {
            None
        } else {
            Some(seg)
        }
    }
}

/// The position of the last `.` in `name[..j]`.
pub open spec fn last_dot(name: Seq<char>, j: int) -> Option<int>
    decreases j,
{
    if j <= 0 || j > name.len() {
        None
    } else if name[j - 1] == '.' {
        Some(j - 1)
    } else {
        last_dot(name, j - 1)
    }
}

/// The extension of a file name: what follows its last `.`, unless that
/// `.` starts the name (`Path::extension`).
pub open spec fn extension_of(name: Seq<char>) -> Option<Seq<char>> {
    match last_dot(name, name.len() as int) {
        Some(i) => if i == 0 {
            None
        } else {
            Some(name.skip(i + 1))
        },
        None => None,
    }
}

pub open spec fn ascii_upper(c: char) -> char {
    if 'a' <= c && c <= 'z' {
        ((c as u32) - 32) as char
    } else {
        c
    }
}

/// Whether `s` is the lower-case word `w`, ignoring ASCII case.
pub open spec fn eq_ignore_ascii_case(s: Seq<char>, w: Seq<char>) -> bool {
    s.len() == w.len() && forall|i: int| 0 <= i < s.len() ==> s[i] == w[i] || s[i] == ascii_upper(w[i])
}

/// Whether an extension names a supported image format, ignoring ASCII case.
pub open spec fn is_image_extension(ext: Seq<char>) -> bool {
    eq_ignore_ascii_case(ext, "png"@) || eq_ignore_ascii_case(ext, "jpg"@) || eq_ignore_ascii_case(
        ext,
        "jpeg"@,
    ) || eq_ignore_ascii_case(ext, "gif"@) || eq_ignore_ascii_case(ext, "webp"@)
}

/// Whether a path names a file with a supported image extension.
pub open spec fn has_image_extension(p: Seq<char>) -> bool {
    match file_name_at(p, p.len() as int) {
        Some(name) => match extension_of(name) {
            Some(ext) => is_image_extension(ext),
            None => false,
        },
        None => false,
    }
}

fn file_name_exec(p: &Vec<char>) -> (r: Option<Vec<char>>)
    ensures
        match r {
            Some(v) => file_name_at(p@, p@.len() as int) == Some(v@),
            None => file_name_at(p@, p@.len() as int) is None,
        },
{
    let mut j: usize = p.len();
    loop
        invariant
            0 <= j <= p@.len(),
            file_name_at(p@, p@.len() as int) == file_name_at(p@, j as int),
        decreases j,
    {
        let mut e: usize = j;
        while e > 0 && p[e - 1] == '/'
            invariant
                0 <= e <= j <= p@.len(),
                trim_slashes_end(p@, j as int) == trim_slashes_end(p@, e as int),
            decreases e,
        {
            e = e - 1;
        }
        if e == 0 {
            return None;
        }
        let mut start: usize = e;
        while start > 0 && p[start - 1] != '/'
            invariant
                0 <= start <= e <= p@.len(),
                segment_start(p@, e as int) == segment_start(p@, start as int),
            decreases start,
        {
            start = start - 1;
        }
        let seg = chars_between(p, start, e);
        if seg.len() == 1 && seg[0] == '.' {
            proof {
                assert(seg@ =~= seq!['.']);
            }
            j = start;
        } else if seg.len() == 2 && seg[0] == '.' && seg[1] == '.' {
            proof {
                assert(seg@ =~= seq!['.', '.']);
            }
            return None;
        } else {
            proof {
                assert(seg@ != seq!['.']);
                assert(seg@ != seq!['.', '.']);
            }
            return Some(seg);
        }
    }
}

fn image_extension(name: &Vec<char>) -> (r: bool)
    ensures
        r == (match extension_of(name@) {
            Some(ext) => is_image_extension(ext),
            None => false,
        }),
{
    let mut j: usize = name.len();
    while j > 0 && name[j - 1] != '.'
        invariant
            0 <= j <= name@.len(),
            last_dot(name@, name@.len() as int) == last_dot(name@, j as int),
        decreases j,
    {
        j = j - 1;
    }
    if j <= 1 {
        return false;
    }
    let ext = chars_between(name, j, name.len());
    proof {
        assert(ext@ =~= name@.skip(j as int));
        reveal_strlit("png");
        reveal_strlit("jpg");
        reveal_strlit("jpeg");
        reveal_strlit("gif");
        reveal_strlit("webp");
    }
    let png = ['p', 'n', 'g'];
    let png_upper = ['P', 'N', 'G'];
    let jpg = ['j', 'p', 'g'];
    let jpg_upper = ['J', 'P', 'G'];
    let jpeg = ['j', 'p', 'e', 'g'];
    let jpeg_upper = ['J', 'P', 'E', 'G'];
    let gif = ['g', 'i', 'f'];
    let gif_upper = ['G', 'I', 'F'];
    let webp = ['w', 'e', 'b', 'p'];
    let webp_upper = ['W', 'E', 'B', 'P'];
    proof {
        assert(png@ =~= "png"@);
        assert(jpg@ =~= "jpg"@);
        assert(jpeg@ =~= "jpeg"@);
        assert(gif@ =~= "gif"@);
        assert(webp@ =~= "webp"@);
    }
    same_ignoring_case(&ext, &png, &png_upper) || same_ignoring_case(&ext, &jpg, &jpg_upper)
        || same_ignoring_case(&ext, &jpeg, &jpeg_upper) || same_ignoring_case(&ext, &gif, &gif_upper)
        || same_ignoring_case(&ext, &webp, &webp_upper)
}

/// Whether `s` is the lower-case word `lower` (upper-cased: `upper`),
/// ignoring ASCII case.
fn same_ignoring_case(s: &Vec<char>, lower: &[char], upper: &[char]) -> (r: bool)
    requires
        lower@.len() == upper@.len(),
        forall|i: int| 0 <= i < lower@.len() ==> upper@[i] == ascii_upper(#[trigger] lower@[i]),
    ensures
        r == eq_ignore_ascii_case(s@, lower@),
{
    if s.len() != lower.len() {
        return false;
    }
    let mut i: usize = 0;
    while i < s.len()
        invariant
            s@.len() == lower@.len(),
            lower@.len() == upper@.len(),
            forall|k: int| 0 <= k < lower@.len() ==> upper@[k] == ascii_upper(#[trigger] lower@[k]),
            0 <= i <= s@.len(),
            forall|k: int| 0 <= k < i ==> s@[k] == lower@[k] || s@[k] == ascii_upper(lower@[k]),
        decreases s@.len() - i,
    {
        if s[i] != lower[i] && s[i] != upper[i] {
            return false;
        }
        i = i + 1;
    }
    true
}

/// The image file that pasted text names: a path as [`parse_image_path`]
/// reads it, with a `png`, `jpg`, `jpeg`, `gif` or `webp` extension in any
/// ASCII case.
pub fn pasted_image_path(text: &str, home: Option<&str>) -> (r: Option<String>)
    ensures
        match r {
            Some(p) => has_image_extension(p@),
            None => true,
        },
        pasted_text_refused(trim_spec(text@)) ==> r is None,
        !pasted_text_refused(trim_spec(text@)) ==> opt_view(r) == (match image_path_spec(shlex_words(trim_spec(text@)), opt_str_view(home)) {
            Some(p) => if has_image_extension(p) {
                Some(p)
            } else {
                None
            },
            None => None,
        }),
{
    let path = parse_image_path(text, home)?;
    let chars = str_chars(path.as_str());
    let name = file_name_exec(&chars)?;
    if image_extension(&name) {
        Some(path)
    } else {
        None
    }
}

/// Whether the path names a file with a supported image extension.
fn path_has_image_extension(path: &str) -> (r: bool)
    ensures
        r == has_image_extension(path@),
{
    let chars = str_chars(path);
    match file_name_exec(&chars) {
        Some(name) => image_extension(&name),
        None => false,
    }
}

/// The most clipboard files looked at for an image.
pub const MAX_CLIPBOARD_FILES: usize = 16;

/// The first clipboard file, among the first 16 from position `i` on, that
/// names an image.
pub open spec fn first_image_file_spec(files: Seq<Seq<char>>, i: int) -> Option<int>
    decreases files.len() - i,
{
    if i < 0 || i >= files.len() || i >= MAX_CLIPBOARD_FILES {
        None
    } else if has_image_extension(files[i]) {
        Some(i)
    } else {
        first_image_file_spec(files, i + 1)
    }
}

/// The position of the clipboard file to attach: the first of the first 16
/// that has a `png`, `jpg`, `jpeg`, `gif` or `webp` extension.
pub fn first_image_file(files: &[String]) -> (r: Option<usize>)
    ensures
        match r {
            Some(i) => first_image_file_spec(files@.map_values(|f: String| f@), 0) == Some(i as int),
            None => first_image_file_spec(files@.map_values(|f: String| f@), 0) is None,
        },
{
    let ghost fv = files@.map_values(|f: String| f@);
    let mut i: usize = 0;
    while i < files.len() && i < MAX_CLIPBOARD_FILES
        invariant
            fv == files@.map_values(|f: String| f@),
            0 <= i <= files@.len(),
            first_image_file_spec(fv, 0) == first_image_file_spec(fv, i as int),
        decreases files@.len() - i,
    {
        if path_has_image_extension(files[i].as_str()) {
            return Some(i);
        }
        i = i + 1;
    }
    None
}

/// Why clipboard pixels of this size are refused, if they are: the sides
/// must fit `u32`, each lie between 1 and 8192, and the pixels take four
/// bytes each and at most 128 MiB.
pub open spec fn clipboard_image_spec(width: usize, height: usize, byte_len: usize) -> Result<(u32, u32), Seq<char>> {
    if width > u32::MAX {
        Err("Clipboard image is too wide."@)
    } else if height > u32::MAX {
        Err("Clipboard image is too tall."@)
    } else if width == 0 || height == 0 || width > 8192 || height > 8192 || byte_len > 134217728
        || width * height * 4 != byte_len {
        Err("Clipboard image exceeds supported dimensions or byte limits."@)
    } else {
        Ok((width as u32, height as u32))
    }
}

/// The size of clipboard pixels, checked against the paste limits.
pub fn clipboard_image_size(width: usize, height: usize, byte_len: usize) -> (r: Result<(u32, u32), String>)
    ensures
        match r {
            Ok(size) => clipboard_image_spec(width, height, byte_len) == Ok::<(u32, u32), Seq<char>>(size),
            Err(e) => clipboard_image_spec(width, height, byte_len) == Err::<(u32, u32), Seq<char>>(e@),
        },
{
    if width > u32::MAX as usize {
        return Err(owned("Clipboard image is too wide."));
    }
    if height > u32::MAX as usize {
        return Err(owned("Clipboard image is too tall."));
    }
    if width == 0 || height == 0 || width > 8192 || height > 8192 || byte_len > 134217728 {
        return Err(owned("Clipboard image exceeds supported dimensions or byte limits."));
    }
    proof {
        assert(width * height <= 8192 * 8192) by (nonlinear_arith)
            requires
                width <= 8192,
                height <= 8192,
        ;
    }
    if width as u64 * height as u64 * 4 != byte_len as u64 {
        return Err(owned("Clipboard image exceeds supported dimensions or byte limits."));
    }
    Ok((width as u32, height as u32))
}

} // verus!
