use vstd::prelude::*;
use crate::text::{lower_of, lowercase};

verus! {

/// How many bytes from the start of a file the content sniff looks at.
pub const SAMPLE_LEN: usize = 512;

/// The extensions, in lowercase, of files that are text without a look at
/// their content.
pub open spec fn text_extensions() -> Seq<Seq<char>> {
    seq![
        "log"@, "txt"@, "text"@, "err"@, "out"@, "output"@, "debug"@,
        "conf"@, "config"@, "cfg"@, "ini"@, "properties"@,
        "yml"@, "yaml"@, "json"@, "xml"@, "env"@,
        "md"@, "rst"@, "info"@,
    ]
}

/// Whether an extension, compared without regard to case, is a known text
/// extension.
pub open spec fn is_text_extension(ext: Seq<char>) -> bool {
    text_extensions().contains(lower_of(ext))
}

/// The number of zero bytes in `s`.
pub open spec fn null_count(s: Seq<u8>) -> nat
    decreases s.len(),
{
    if s.len() == 0 {
        0
    } else {
        null_count(s.drop_last()) + if s.last() == 0 { 1nat } else { 0nat }
    }
}

/// The number of bytes above 127 in `s`.
pub open spec fn high_count(s: Seq<u8>) -> nat
    decreases s.len(),
{
    if s.len() == 0 {
        0
    } else {
        high_count(s.drop_last()) + if s.last() > 127 { 1nat } else { 0nat }
    }
}

/// The bytes that the content sniff looks at: at most the first
/// `SAMPLE_LEN` of them.
pub open spec fn sniff_window(s: Seq<u8>) -> Seq<u8> {
    if s.len() <= SAMPLE_LEN {
        s
    } else {
        s.subrange(0, SAMPLE_LEN as int)
    }
}

/// Whether sampled bytes look like text: there are some, under 1% of them
/// are zero and under 30% of them are above 127.
pub open spec fn bytes_look_textual(s: Seq<u8>) -> bool {
    s.len() > 0 && 100 * null_count(s) < s.len() && 10 * high_count(s) < 3 * s.len()
}

/// Whether a file is text, from its extension (if it has one that is valid
/// text) and from the bytes read from its start (none when it could not be
/// read).
pub open spec fn classifies_as_text(ext: Option<Seq<char>>, sample: Option<Seq<u8>>) -> bool {
    (ext is Some && is_text_extension(ext->0)) || (sample is Some && bytes_look_textual(
        sniff_window(sample->0),
    ))
}

proof fn lemma_counts_bounded(s: Seq<u8>)
    ensures
        null_count(s) <= s.len(),
        high_count(s) <= s.len(),
    decreases s.len(),
{
    if s.len() > 0 {
        lemma_counts_bounded(s.drop_last());
    }
}

fn equals_str(a: &String, b: &str) -> (r: bool)
    ensures
        r == (a@ == b@),
{
    let owned = b.to_owned();
    *a == owned
}

/// Tells whether an extension already in lowercase is on the list of text
/// extensions.
pub fn is_listed_extension(lowered: &str) -> (r: bool)
    ensures
        r == text_extensions().contains(lowered@),
{
    let owned = lowered.to_owned();
    let known: [&str; 20] = [
        "log", "txt", "text", "err", "out", "output", "debug",
        "conf", "config", "cfg", "ini", "properties",
        "yml", "yaml", "json", "xml", "env",
        "md", "rst", "info",
    ];
    let mut i: usize = 0;
    while i < 20
        invariant
            i <= 20,
            owned@ == lowered@,
            forall|k: int| 0 <= k < 20 ==> #[trigger] known@[k]@ == text_extensions()[k],
            forall|k: int| 0 <= k < i ==> text_extensions()[k] != lowered@,
        decreases 20 - i,
    {
        if equals_str(&owned, known[i]) {
            assert(text_extensions()[i as int] == lowered@);
            return true;
        }
        i = i + 1;
    }
    assert(!text_extensions().contains(lowered@));
    false
}

/// Tells whether `ext` is one of the known text extensions, ignoring case.
pub fn has_text_extension(ext: &str) -> (r: bool)
    ensures
        r == is_text_extension(ext@),
{
    let lowered = lowercase(ext);
    is_listed_extension(lowered.as_str())
}

/// Tells whether sampled bytes look like text: of at most the first
/// `SAMPLE_LEN` bytes, there is at least one, under 1% are zero and under
/// 30% are above 127. An empty sample is not text.
pub fn sample_looks_textual(sample: &[u8]) -> (r: bool)
    ensures
        r == bytes_look_textual(sniff_window(sample@)),
{
    let size: usize = if sample.len() <= SAMPLE_LEN { sample.len() } else { SAMPLE_LEN };
    if size == 0 {
        return false;
    }
    let ghost window = sniff_window(sample@);
    let mut nulls: usize = 0;
    let mut high: usize = 0;
    let mut i: usize = 0;
    while i < size
        invariant
            size == window.len(),
            size <= SAMPLE_LEN,
            i <= size,
            window == sniff_window(sample@),
            forall|k: int| 0 <= k < size ==> window[k] == sample@[k],
            nulls == null_count(window.subrange(0, i as int)),
            high == high_count(window.subrange(0, i as int)),
        decreases size - i,
    {
        let ghost prefix = window.subrange(0, i as int);
        let ghost next = window.subrange(0, i + 1);
        assert(next.drop_last() =~= prefix);
        proof {
            lemma_counts_bounded(prefix);
        }
        if sample[i] == 0 {
            nulls = nulls + 1;
        }
        if sample[i] > 127 {
            high = high + 1;
        }
        i = i + 1;
    }
    assert(window.subrange(0, size as int) =~= window);
    proof {
        lemma_counts_bounded(window);
    }
    100 * nulls < size && 10 * high < 3 * size
}

/// Classifies a file as text from its extension and, failing that, from a
/// sample of its first bytes. A known text extension decides alone, whatever
/// the sample; a missing sample (the file could not be read) or an empty one
/// means not text.
pub fn is_text_file(extension: Option<&str>, sample: Option<&[u8]>) -> (r: bool)
    ensures
        r == classifies_as_text(
            match extension {
                Some(e) => Some(e@),
                None => None,
            },
            match sample {
                Some(b) => Some(b@),
                None => None,
            },
        ),
        extension is Some && is_text_extension(extension->0@) ==> r,
        (extension is None || !is_text_extension(extension->0@)) && sample is Some && ({
            let w = sniff_window(sample->0@);
            100 * null_count(w) >= w.len() || 10 * high_count(w) >= 3 * w.len()
        }) ==> !r,
{
    if let Some(e) = extension {
        if has_text_extension(e) {
            return true;
        }
    }
    match sample {
        Some(b) => sample_looks_textual(b),
        None => false,
    }
}

} // verus!
