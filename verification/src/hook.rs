//! The protection hook's content: the script that refuses direct commits
//! to the protected branches, and the splice that installs or refreshes it
//! inside an existing hook file between its two marker lines.

use vstd::prelude::*;
use crate::text::{contains_seq, find_first, first_match_is, lemma_first_match_unique};

verus! {

/// The line that opens the managed section of the hook file.
pub open spec fn marker_start() -> Seq<char> {
    "# --- WGIT-HOOK-BEGIN ---"@
}

/// The line that closes the managed section of the hook file.
pub open spec fn marker_end() -> Seq<char> {
    "# --- WGIT-HOOK-END ---"@
}

/// The managed section itself: markers around a script that exits
/// non-zero when the checked-out branch is the main or development
/// branch.
pub open spec fn hook_payload(main: Seq<char>, dev: Seq<char>) -> Seq<char> {
    "# --- WGIT-HOOK-BEGIN ---\nbranch=\"$(git rev-parse --abbrev-ref HEAD)\"\nif [ \"$branch\" = \""@
        + main + "\" ] || [ \"$branch\" = \""@ + dev
        + "\" ]; then\n    echo \"wgit Error: Direct commits to $branch are forbidden.\"\n    exit 1\nfi\n# --- WGIT-HOOK-END ---"@
}

/// The hook file content when no managed section can be replaced: the
/// payload is appended after a blank line, to a shebang line when the
/// file was empty.
pub open spec fn appended_hook(cur: Seq<char>, payload: Seq<char>) -> Seq<char> {
    (if cur.len() == 0 {
        "#!/bin/sh"@
    } else {
        cur
    }) + "\n\n"@ + payload
}

/// Builds the managed section for the given protected branch names.
pub fn build_hook_payload(main: &str, dev: &str) -> (r: String)
    ensures
        r@ == hook_payload(main@, dev@),
{
    let mut m = String::from_str(
        "# --- WGIT-HOOK-BEGIN ---\nbranch=\"$(git rev-parse --abbrev-ref HEAD)\"\nif [ \"$branch\" = \"",
    );
    m.append(main);
    m.append("\" ] || [ \"$branch\" = \"");
    m.append(dev);
    m.append(
        "\" ]; then\n    echo \"wgit Error: Direct commits to $branch are forbidden.\"\n    exit 1\nfi\n# --- WGIT-HOOK-END ---",
    );
    m
}

/// The new content of the hook file.  When the current content holds both
/// markers, first start marker before first end marker, the stretch from
/// the start marker through the end marker is replaced by a fresh
/// payload; otherwise the payload is appended, after a shebang line when
/// the file was empty.
pub fn updated_hook_content(current: &str, main: &str, dev: &str) -> (r: String)
    ensures
        forall|si: int, ei: int|
            first_match_is(current@, marker_start(), si) && first_match_is(
                current@,
                marker_end(),
                ei,
            ) && si <= ei ==> r@ == current@.subrange(0, si) + hook_payload(main@, dev@)
                + current@.subrange(ei + marker_end().len(), current@.len() as int),
        forall|si: int, ei: int|
            first_match_is(current@, marker_start(), si) && first_match_is(
                current@,
                marker_end(),
                ei,
            ) && si > ei ==> r@ == appended_hook(current@, hook_payload(main@, dev@)),
        !(contains_seq(current@, marker_start()) && contains_seq(current@, marker_end()))
            ==> r@ == appended_hook(current@, hook_payload(main@, dev@)),
{
    let payload = build_hook_payload(main, dev);
    let start_pos = find_first(current, "# --- WGIT-HOOK-BEGIN ---");
    let end_pos = find_first(current, "# --- WGIT-HOOK-END ---");
    match (start_pos, end_pos) {
        (Some(si), Some(ei)) if si <= ei => {
            proof {
                assert forall|si2: int, ei2: int|
                    first_match_is(current@, marker_start(), si2) && first_match_is(
                        current@,
                        marker_end(),
                        ei2,
                    ) implies si2 == si as int && ei2 == ei as int by {
                    lemma_first_match_unique(current@, marker_start(), si2, si as int);
                    lemma_first_match_unique(current@, marker_end(), ei2, ei as int);
                }
            }
            let len = current.unicode_len();
            let end_marker_len = "# --- WGIT-HOOK-END ---".unicode_len();
            let mut m = String::from_str(current.substring_char(0, si));
            m.append(payload.as_str());
            m.append(current.substring_char(ei + end_marker_len, len));
            m
        },
        (sp, ep) => {
            proof {
                match (sp, ep) {
                    (Some(si), Some(ei)) => {
                        assert forall|si2: int, ei2: int|
                            first_match_is(current@, marker_start(), si2) && first_match_is(
                                current@,
                                marker_end(),
                                ei2,
                            ) implies si2 == si as int && ei2 == ei as int by {
                            lemma_first_match_unique(current@, marker_start(), si2, si as int);
                            lemma_first_match_unique(current@, marker_end(), ei2, ei as int);
                        }
                    },
                    _ => {},
                }
            }
            let mut m = if current.is_empty() {
                String::from_str("#!/bin/sh")
            } else {
                String::from_str(current)
            };
            m.append("\n\n");
            m.append(payload.as_str());
            m
        },
    }
}

} // verus!
