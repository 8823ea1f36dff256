//! Container target selection: maps the output file extension to the
//! multiplexer kind, case-insensitively, with a permissive Matroska fallback.

use vstd::prelude::*;

verus! {

/// The multiplexer families a job can target.
#[derive(Debug, Clone, Copy, PartialEq, Eq)]
pub enum MuxerKind {
    Matroska,
    WebM,
    Mp4Family,
}

/// The code point of a character with ASCII upper case letters folded to
/// lower case (65..=90 are 'A'..='Z'; adding 32 reaches 'a'..='z').
pub open spec fn lower_code(c: char) -> int {
    if 65 <= c as u32 && c as u32 <= 90 {
        c as u32 + 32
    } else {
        c as u32 as int
    }
}

/// ASCII-case-insensitive equality of two character sequences.
pub open spec fn seq_eq_ci(a: Seq<char>, b: Seq<char>) -> bool {
    a.len() == b.len() && (forall|i: int| 0 <= i < a.len() ==> lower_code(a[i]) == lower_code(b[i]))
}

/// Which muxer an output extension selects. Unrecognized extensions fall
/// back to Matroska rather than failing the job.
pub open spec fn spec_select_muxer(ext: Seq<char>) -> MuxerKind {
    if seq_eq_ci(ext, "mkv"@) || seq_eq_ci(ext, "matroska"@) {
        MuxerKind::Matroska
    } else if seq_eq_ci(ext, "webm"@) {
        MuxerKind::WebM
    } else if seq_eq_ci(ext, "mp4"@) || seq_eq_ci(ext, "m4v"@) || seq_eq_ci(ext, "m4a"@)
        || seq_eq_ci(ext, "mov"@) {
        MuxerKind::Mp4Family
    } else {
        MuxerKind::Matroska
    }
}

/// ASCII-case-insensitive string equality, reflected into the views.
pub fn str_eq_ci(a: &str, b: &str) -> (r: bool)
    ensures
        r == seq_eq_ci(a@, b@),
{
    let n = a.unicode_len();
    if n != b.unicode_len() {
        return false;
    }
    let mut i: usize = 0;
    while i < n
        invariant
            0 <= i <= n,
            n == a@.len(),
            n == b@.len(),
            forall|j: int| 0 <= j < i ==> lower_code(a@[j]) == lower_code(b@[j]),
        decreases n - i,
    {
        let ca = a.get_char(i) as u32;
        let cb = b.get_char(i) as u32;
        let la = if 65 <= ca && ca <= 90 {
            ca + 32
        } else {
            ca
        };
        let lb = if 65 <= cb && cb <= 90 {
            cb + 32
        } else {
            cb
        };
        if la != lb {
            return false;
        }
        i += 1;
    }
    true
}

/// Selects the muxer for an output extension, matching case-insensitively.
pub fn select_muxer(ext: &str) -> (r: MuxerKind)
    ensures
        r == spec_select_muxer(ext@),
{
    if str_eq_ci(ext, "mkv") || str_eq_ci(ext, "matroska") {
        MuxerKind::Matroska
    } else if str_eq_ci(ext, "webm") {
        MuxerKind::WebM
    } else if str_eq_ci(ext, "mp4") || str_eq_ci(ext, "m4v") || str_eq_ci(ext, "m4a") || str_eq_ci(
        ext,
        "mov",
    ) {
        MuxerKind::Mp4Family
    } else {
        MuxerKind::Matroska
    }
}

/// The element name the backend's element library uses for each muxer kind.
pub fn muxer_element_name(kind: MuxerKind) -> (r: &'static str)
    ensures
        kind == MuxerKind::Matroska ==> r@ == "matroskamux"@,
        kind == MuxerKind::WebM ==> r@ == "webmmux"@,
        kind == MuxerKind::Mp4Family ==> r@ == "mp4mux"@,
{
    match kind {
        MuxerKind::Matroska => "matroskamux",
        MuxerKind::WebM => "webmmux",
        MuxerKind::Mp4Family => "mp4mux",
    }
}

/// The selection table, stated whole: mkv and matroska select Matroska;
/// webm selects WebM; mp4, m4v, m4a and mov select the MP4 family; and any
/// extension matching none of these falls back to Matroska.
pub proof fn lemma_select_muxer_table(ext: Seq<char>)
    ensures
        seq_eq_ci(ext, "mkv"@) || seq_eq_ci(ext, "matroska"@) ==> spec_select_muxer(ext)
            == MuxerKind::Matroska,
        seq_eq_ci(ext, "webm"@) ==> spec_select_muxer(ext) == MuxerKind::WebM,
        seq_eq_ci(ext, "mp4"@) || seq_eq_ci(ext, "m4v"@) || seq_eq_ci(ext, "m4a"@) || seq_eq_ci(
            ext,
            "mov"@,
        ) ==> spec_select_muxer(ext) == MuxerKind::Mp4Family,
        !seq_eq_ci(ext, "mkv"@) && !seq_eq_ci(ext, "matroska"@) && !seq_eq_ci(ext, "webm"@)
            && !seq_eq_ci(ext, "mp4"@) && !seq_eq_ci(ext, "m4v"@) && !seq_eq_ci(ext, "m4a"@)
            && !seq_eq_ci(ext, "mov"@) ==> spec_select_muxer(ext) == MuxerKind::Matroska,
{
    reveal_strlit("mkv");
    reveal_strlit("matroska");
    reveal_strlit("webm");
    reveal_strlit("mp4");
    reveal_strlit("m4v");
    reveal_strlit("m4a");
    reveal_strlit("mov");
    if seq_eq_ci(ext, "mkv"@) {
        assert(lower_code(ext[1]) == lower_code("mkv"@[1]));
        assert(!seq_eq_ci(ext, "mp4"@) && !seq_eq_ci(ext, "m4v"@) && !seq_eq_ci(ext, "m4a"@)
            && !seq_eq_ci(ext, "mov"@)) by {
            assert(lower_code("mkv"@[1]) == 107 && lower_code("mp4"@[1]) == 112 && lower_code(
                "m4v"@[1],
            ) == 52 && lower_code("m4a"@[1]) == 52 && lower_code("mov"@[1]) == 111);
        }
    }
}

/// The position of the last occurrence of `c`, or -1.
pub open spec fn last_pos(s: Seq<char>, c: char) -> int
    decreases s.len(),
{
    if s.len() == 0 {
        -1
    } else if s.last() == c {
        s.len() - 1
    } else {
        last_pos(s.drop_last(), c)
    }
}

proof fn lemma_last_pos_skip(s: Seq<char>, c: char, i: int)
    requires
        0 <= i <= s.len(),
        forall|j: int| i <= j < s.len() ==> s[j] != c,
    ensures
        last_pos(s, c) == last_pos(s.subrange(0, i), c),
    decreases s.len(),
{
    if i < s.len() {
        assert(s.last() != c);
        assert(s.drop_last() =~= s.subrange(0, s.len() - 1));
        lemma_last_pos_skip(s.subrange(0, s.len() - 1), c, i);
        assert(s.subrange(0, s.len() - 1).subrange(0, i) =~= s.subrange(0, i));
    } else {
        assert(s.subrange(0, i) =~= s);
    }
}

/// Finds the last occurrence of `c`.
fn find_last_char(s: &str, c: char) -> (r: Option<usize>)
    ensures
        r is Some ==> r->0 as int == last_pos(s@, c) && r->0 < s@.len(),
        r is None ==> last_pos(s@, c) == -1,
{
    let n = s.unicode_len();
    let mut i = n;
    while i > 0
        invariant
            0 <= i <= n,
            n == s@.len(),
            forall|j: int| i <= j < n ==> s@[j] != c,
        decreases i,
    {
        i = i - 1;
        if s.get_char(i) == c {
            proof {
                lemma_last_pos_skip(s@, c, i + 1);
                assert(s@.subrange(0, i + 1).last() == s@[i as int]);
            }
            return Some(i);
        }
    }
    proof {
        lemma_last_pos_skip(s@, c, 0);
        assert(s@.subrange(0, 0) =~= Seq::<char>::empty());
    }
    None
}

/// The extension of an output path: what follows the last dot of the last
/// path segment, provided the dot neither starts the segment nor is the
/// path's first character.
pub open spec fn spec_extension(path: Seq<char>) -> Option<Seq<char>> {
    let d = last_pos(path, '.');
    let sl = last_pos(path, '/');
    if d >= 0 && d > sl && d != sl + 1 && d != 0 {
        Some(path.subrange(d + 1, path.len() as int))
    } else {
        None
    }
}

/// The muxer an output path selects, from its extension; a path without
/// one falls back to Matroska like any unrecognized extension.
pub open spec fn spec_muxer_for_path(path: Seq<char>) -> MuxerKind {
    match spec_extension(path) {
        Some(e) => spec_select_muxer(e),
        None => spec_select_muxer(Seq::empty()),
    }
}

/// Selects the muxer for an output path.
pub fn muxer_for_path(path: &str) -> (r: MuxerKind)
    ensures
        r == spec_muxer_for_path(path@),
{
    let n = path.unicode_len();
    let d = match find_last_char(path, '.') {
        Some(d) => d,
        None => {
            proof {
                reveal_strlit("");
                assert(""@ =~= Seq::<char>::empty());
            }
            return select_muxer("");
        },
    };
    let sl: Option<usize> = find_last_char(path, '/');
    let ok = match sl {
        Some(s) => d > s && d != s + 1 && d != 0,
        None => d != 0,
    };
    if ok {
        let ext = path.substring_char(d + 1, n);
        proof {
            assert(ext@ =~= path@.subrange(d + 1, path@.len() as int));
        }
        select_muxer(ext)
    } else {
        proof {
            reveal_strlit("");
            assert(""@ =~= Seq::<char>::empty());
        }
        select_muxer("")
    }
}

} // verus!
