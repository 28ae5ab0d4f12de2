//! What the clipboard receives when all extracted snippets are copied at
//! once: their contents, in order, separated by a blank line.
use vstd::prelude::*;
use vstd::string::*;

verus! {

/// `parts` joined with `sep` between consecutive parts.
pub open spec fn joined(parts: Seq<Seq<char>>, sep: Seq<char>) -> Seq<char>
    decreases parts.len(),
{
    if parts.len() == 0 {
        Seq::empty()
    } else if parts.len() == 1 {
        parts[0]
    } else {
        joined(parts.drop_last(), sep) + sep + parts.last()
    }
}

/// The contents of the snippets, each as its characters.
pub open spec fn content_views(contents: Seq<String>) -> Seq<Seq<char>> {
    contents.map_values(|c: String| c@)
}

/// The separator between two copied snippets: a blank line.
pub open spec fn snippet_separator() -> Seq<char> {
    "\n\n"@
}

/// The text that copying all snippets puts on the clipboard: the snippet
/// contents, in order, each pair separated by a blank line.
pub fn combined_snippet_text(contents: &Vec<String>) -> (combined: String)
    ensures
        combined@ == joined(content_views(contents@), snippet_separator()),
{
    let ghost parts = content_views(contents@);
    let mut combined = String::new();
    let n = contents.len();
    let mut i: usize = 0;
    while i < n
        invariant
            i <= n,
            n == contents@.len(),
            parts == content_views(contents@),
            combined@ == joined(parts.take(i as int), snippet_separator()),
        decreases n - i,
    {
        if i > 0 {
            combined.append("\n\n");
        }
        combined.append(contents[i].as_str());
        proof {
            assert(parts.take(i + 1).drop_last() =~= parts.take(i as int));
            if i == 0 {
                assert(combined@ =~= parts.take(1)[0]);
            }
        }
        i = i + 1;
    }
    proof {
        assert(parts.take(n as int) =~= parts);
    }
    combined
}

/// The total number of characters in `parts`.
pub open spec fn total_len(parts: Seq<Seq<char>>) -> nat
    decreases parts.len(),
{
    if parts.len() == 0 {
        0
    } else {
        total_len(parts.drop_last()) + parts.last().len()
    }
}

/// Where the `i`-th snippet starts in the combined text: after the contents
/// of the snippets before it and one two-character separator for each.
pub open spec fn snippet_offset(contents: Seq<String>, i: int) -> int {
    total_len(content_views(contents).take(i)) + 2 * i
}

proof fn lemma_joined_len(parts: Seq<Seq<char>>, sep: Seq<char>)
    requires
        sep.len() == 2,
    ensures
        parts.len() == 0 ==> joined(parts, sep).len() == 0,
        parts.len() > 0 ==> joined(parts, sep).len() == total_len(parts) + 2 * (parts.len() - 1),
    decreases parts.len(),
{
    if parts.len() == 1 {
        assert(parts.drop_last().len() == 0);
        assert(total_len(parts.drop_last()) == 0);
    } else if parts.len() >= 2 {
        lemma_joined_len(parts.drop_last(), sep);
    }
}

proof fn lemma_joined_piece(parts: Seq<Seq<char>>, sep: Seq<char>, i: int)
    requires
        sep.len() == 2,
        0 <= i < parts.len(),
    ensures
        ({
            let off = total_len(parts.take(i)) + 2 * i;
            &&& off + parts[i].len() <= joined(parts, sep).len()
            &&& joined(parts, sep).subrange(off, off + parts[i].len()) =~= parts[i]
            &&& i > 0 ==> off >= 2 && joined(parts, sep).subrange(off - 2, off) =~= sep
        }),
    decreases parts.len(),
{
    let off = total_len(parts.take(i)) + 2 * i;
    if parts.len() == 1 {
        assert(parts.take(0).len() == 0);
        assert(total_len(parts.take(0)) == 0);
    } else {
        let init = parts.drop_last();
        let ji = joined(init, sep);
        lemma_joined_len(init, sep);
        assert(joined(parts, sep) == ji + sep + parts.last());
        if i < parts.len() - 1 {
            lemma_joined_piece(init, sep, i);
            assert(init.take(i) =~= parts.take(i));
            assert(init[i] == parts[i]);
            assert(joined(parts, sep).subrange(off, off + parts[i].len()) =~= ji.subrange(
                off,
                off + parts[i].len(),
            ));
            if i > 0 {
                assert(joined(parts, sep).subrange(off - 2, off) =~= ji.subrange(off - 2, off));
            }
        } else {
            assert(parts.take(i) =~= init);
            assert(off == ji.len() + 2);
            assert(parts[i] == parts.last());
            assert(joined(parts, sep).subrange(off, off + parts[i].len()) =~= parts.last());
            assert(joined(parts, sep).subrange(off - 2, off) =~= sep);
        }
    }
}

/// The combined text of `n` snippets is as long as all their contents
/// together plus one blank-line separator (two characters) between each
/// consecutive pair; no snippet is dropped or cut.
pub proof fn lemma_combined_snippet_length(contents: Seq<String>, combined: String)
    requires
        combined@ == joined(content_views(contents), snippet_separator()),
    ensures
        contents.len() == 0 ==> combined@.len() == 0,
        contents.len() > 0 ==> combined@.len() == total_len(content_views(contents)) + 2 * (
        contents.len() - 1),
{
    reveal_strlit("\n\n");
    lemma_joined_len(content_views(contents), snippet_separator());
}

/// Snippet `i` appears in the combined text, whole and in place: at
/// `snippet_offset(contents, i)` stand exactly its contents, and (unless it
/// is the first) right before it stands the blank-line separator `\n\n`.
pub proof fn lemma_combined_snippet_layout(contents: Seq<String>, combined: String, i: int)
    requires
        combined@ == joined(content_views(contents), snippet_separator()),
        0 <= i < contents.len(),
    ensures
        snippet_offset(contents, i) + contents[i]@.len() <= combined@.len(),
        combined@.subrange(
            snippet_offset(contents, i),
            snippet_offset(contents, i) + contents[i]@.len(),
        ) == contents[i]@,
        i > 0 ==> combined@.subrange(snippet_offset(contents, i) - 2, snippet_offset(contents, i))
            == "\n\n"@,
{
    reveal_strlit("\n\n");
    lemma_joined_piece(content_views(contents), snippet_separator(), i);
    assert(content_views(contents)[i] == contents[i]@);
}

} // verus!
