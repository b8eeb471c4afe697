//! Kernel boot-argument requirement: the kernel command line must carry four
//! required tokens.  The fixable part merges the missing tokens into the
//! `GRUB_CMDLINE_LINUX` line of the bootloader's default configuration.

use vstd::prelude::*;
use vstd::string::*;

use crate::requirements::{CheckResult, Requirement};
use crate::strings::{
    contains_substr, has_substr, join_spec, join_with, lemma_join_split, lemma_split_nonempty,
    lines_of, lines_spec, quote_pred, space_pred, split_char, split_spec, starts_with,
    str_starts_with, trim_quotes, trim_spec, trim_ws, vec_contains_string,
};

verus! {

/// The boot arguments that the platform requires, in the order the check
/// reports them.
pub open spec fn required_kernel_args() -> Seq<Seq<char>> {
    seq!["nomodeset"@, "nofb"@, "vga=normal"@, "console=ttyS0"@]
}

/// The required tokens of `req` that do not occur as substrings of `cmdline`,
/// in the order of `req`.
pub open spec fn missing_from(cmdline: Seq<char>, req: Seq<Seq<char>>) -> Seq<Seq<char>>
    decreases req.len(),
{
    if req.len() == 0 {
        Seq::empty()
    } else if contains_substr(cmdline, req[0]) {
        missing_from(cmdline, req.drop_first())
    } else {
        seq![req[0]] + missing_from(cmdline, req.drop_first())
    }
}

/// Outcome of the kernel boot-argument check: passed iff no required argument
/// is missing from the kernel command line.
pub struct KernelCheckResult {
    pub is_supported: bool,
    pub missing_args: Vec<String>,
}

impl CheckResult for KernelCheckResult {
    open spec fn spec_passed(&self) -> bool {
        self.is_supported
    }

    fn passed(&self) -> (r: bool) {
        self.is_supported
    }
}

/// The kernel boot-argument requirement.  This is the one fixable
/// requirement: its fix rewrites the bootloader's default configuration.
#[derive(Debug)]
pub struct KernelArgsRequirement;

impl Requirement for KernelArgsRequirement {
    open spec fn spec_fixable(&self) -> bool {
        true
    }

    fn fixable(&self) -> (r: bool) {
        true
    }
}

/// Evaluate the kernel boot-argument requirement against the contents of the
/// kernel command line.
pub fn check_kernel_args(cmdline: &str) -> (r: KernelCheckResult)
    ensures
        r.missing_args.deep_view() == missing_from(cmdline@, required_kernel_args()),
        r.is_supported == (missing_from(cmdline@, required_kernel_args()).len() == 0),
{
    let req: Vec<&str> = vec!["nomodeset", "nofb", "vga=normal", "console=ttyS0"];
    proof {
        assert(req.deep_view() =~= required_kernel_args());
    }
    let ghost req_views = required_kernel_args();
    let mut missing: Vec<String> = Vec::new();
    let n = req.len();
    let mut k: usize = 0;
    proof {
        assert(req_views.skip(0) =~= req_views);
        assert(missing.deep_view() =~= Seq::<Seq<char>>::empty());
        assert(Seq::<Seq<char>>::empty() + missing_from(cmdline@, req_views) =~= missing_from(
            cmdline@,
            req_views,
        ));
    }
    while k < n
        invariant
            n == req.len(),
            req.deep_view() == req_views,
            0 <= k <= n,
            missing_from(cmdline@, req_views) == missing.deep_view() + missing_from(
                cmdline@,
                req_views.skip(k as int),
            ),
        decreases n - k,
    {
        proof {
            assert(req_views.skip(k as int).drop_first() =~= req_views.skip(k + 1));
            assert(req_views.skip(k as int)[0] == req_views[k as int]);
            assert(req.deep_view()[k as int] == req[k as int]@);
        }
        if !has_substr(cmdline, req[k]) {
            let ghost old_missing = missing.deep_view();
            missing.push(req[k].to_owned());
            proof {
                assert(missing.deep_view() =~= old_missing.push(req_views[k as int]));
                assert(old_missing + (seq![req_views[k as int]] + missing_from(
                    cmdline@,
                    req_views.skip(k + 1),
                )) =~= old_missing.push(req_views[k as int]) + missing_from(
                    cmdline@,
                    req_views.skip(k + 1),
                ));
            }
        }
        k += 1;
    }
    proof {
        assert(req_views.skip(n as int) =~= Seq::<Seq<char>>::empty());
        assert(missing.deep_view() + Seq::<Seq<char>>::empty() =~= missing.deep_view());
        assert(missing.deep_view().len() == missing.len());
    }
    let is_supported = missing.len() == 0;
    KernelCheckResult { is_supported, missing_args: missing }
}

/// Law: the check passes exactly when every required argument occurs in the
/// kernel command line.
pub proof fn lemma_missing_from_empty(cmdline: Seq<char>, req: Seq<Seq<char>>)
    ensures
        (missing_from(cmdline, req).len() == 0) <==> (forall|i: int|
            0 <= i < req.len() ==> contains_substr(cmdline, #[trigger] req[i])),
    decreases req.len(),
{
    if req.len() == 0 {
    } else {
        let rest = req.drop_first();
        lemma_missing_from_empty(cmdline, rest);
        if contains_substr(cmdline, req[0]) {
            if missing_from(cmdline, req).len() == 0 {
                assert forall|i: int| 0 <= i < req.len() implies contains_substr(
                    cmdline,
                    #[trigger] req[i],
                ) by {
                    if i > 0 {
                        assert(rest[i - 1] == req[i]);
                        assert(contains_substr(cmdline, rest[i - 1]));
                    }
                }
            }
            if forall|i: int| 0 <= i < req.len() ==> contains_substr(cmdline, #[trigger] req[i]) {
                assert forall|j: int| 0 <= j < rest.len() implies contains_substr(
                    cmdline,
                    #[trigger] rest[j],
                ) by {
                    assert(rest[j] == req[j + 1]);
                    assert(contains_substr(cmdline, req[j + 1]));
                }
                assert(missing_from(cmdline, rest).len() == 0);
            }
        } else {
            assert(missing_from(cmdline, req).len() > 0);
            assert(!contains_substr(cmdline, req[0]));
        }
    }
}

/// The whitespace-separated tokens of a command-line value, after trimming;
/// an empty or all-whitespace value has no tokens.
pub open spec fn tokens_of(s: Seq<char>) -> Seq<Seq<char>> {
    let t = trim_spec(s, space_pred());
    if t.len() == 0 {
        Seq::empty()
    } else {
        split_spec(t, ' ')
    }
}

/// Append each token of `req` that is not already in `cur`, in the order of
/// `req`, never reordering or deduplicating the tokens of `cur`.
pub open spec fn merge_tokens(cur: Seq<Seq<char>>, req: Seq<Seq<char>>) -> Seq<Seq<char>>
    decreases req.len(),
{
    if req.len() == 0 {
        cur
    } else if cur.contains(req[0]) {
        merge_tokens(cur, req.drop_first())
    } else {
        merge_tokens(cur.push(req[0]), req.drop_first())
    }
}

/// The command-line value that results from merging the required tokens into
/// an existing value.
pub open spec fn merged_cmdline(value: Seq<char>, required: Seq<char>) -> Seq<char> {
    join_spec(merge_tokens(tokens_of(value), split_spec(required, ' ')), ' ')
}

/// Merge the space-separated tokens of `required_args` into the token list of
/// `current_value`: existing tokens keep their order, and each required token
/// not already present is appended, in the required list's order.
pub fn add_missing_args(current_value: &str, required_args: &str) -> (r: String)
    ensures
        r@ == merged_cmdline(current_value@, required_args@),
{
    let trimmed = trim_ws(current_value);
    let mut args: Vec<String> = if trimmed.unicode_len() == 0 {
        Vec::new()
    } else {
        split_char(trimmed, ' ')
    };
    proof {
        assert(args.deep_view() =~= tokens_of(current_value@));
    }
    let req = split_char(required_args, ' ');
    let ghost req_views = split_spec(required_args@, ' ');
    let n = req.len();
    let mut i: usize = 0;
    proof {
        assert(req_views.skip(0) =~= req_views);
    }
    while i < n
        invariant
            n == req.len(),
            req.deep_view() == req_views,
            0 <= i <= n,
            merge_tokens(tokens_of(current_value@), req_views) == merge_tokens(
                args.deep_view(),
                req_views.skip(i as int),
            ),
        decreases n - i,
    {
        proof {
            assert(req_views.skip(i as int).drop_first() =~= req_views.skip(i + 1));
            assert(req_views.skip(i as int)[0] == req_views[i as int]);
            assert(req.deep_view()[i as int] == req[i as int]@);
        }
        let present = vec_contains_string(&args, &req[i]);
        if !present {
            let ghost old_args = args.deep_view();
            args.push(req[i].clone());
            proof {
                assert(args.deep_view() =~= old_args.push(req_views[i as int]));
            }
        }
        i += 1;
    }
    proof {
        assert(req_views.skip(n as int) =~= Seq::<Seq<char>>::empty());
        reveal_strlit(" ");
    }
    join_with(&args, " ")
}

/// The space-joined required boot arguments, as the fix merges them into the
/// bootloader configuration.
pub fn required_args_line() -> (r: String)
    ensures
        r@ == "console=ttyS0 vga=normal nofb nomodeset"@,
{
    ("console=ttyS0 vga=normal nofb nomodeset").to_owned()
}

/// The variable assignment the fix looks for in the bootloader's default
/// configuration file.
pub open spec fn grub_prefix() -> Seq<char> {
    "GRUB_CMDLINE_LINUX="@
}

/// One line of the bootloader configuration after the fix: the line defining
/// the kernel command line has its quoted value merged with the required
/// arguments; every other line is kept as it is.
pub open spec fn rewrite_line(line: Seq<char>, required: Seq<char>) -> Seq<char> {
    if starts_with(line, grub_prefix()) {
        grub_prefix() + seq!['"'] + merged_cmdline(
            trim_spec(line.skip(grub_prefix().len() as int), quote_pred()),
            required,
        ) + seq!['"']
    } else {
        line
    }
}

/// Every line rewritten, in order.
pub open spec fn rewrite_lines(ls: Seq<Seq<char>>, required: Seq<char>) -> Seq<Seq<char>>
    decreases ls.len(),
{
    if ls.len() == 0 {
        Seq::empty()
    } else {
        seq![rewrite_line(ls[0], required)] + rewrite_lines(ls.drop_first(), required)
    }
}

/// The whole bootloader configuration after the fix.
pub open spec fn rewritten_grub(content: Seq<char>, required: Seq<char>) -> Seq<char> {
    join_spec(rewrite_lines(lines_spec(content), required), '\n')
}

/// Rewrite the bootloader's default configuration: on the line defining the
/// kernel command line variable, parse the quoted value and merge the
/// required arguments into it; keep all other lines unchanged.
pub fn add_required_args_to_kernel(required_args: &str, grub_content: String) -> (r: String)
    ensures
        r@ == rewritten_grub(grub_content@, required_args@),
{
    let lines = lines_of(grub_content.as_str());
    let ghost lviews = lines_spec(grub_content@);
    let mut out: Vec<String> = Vec::new();
    let n = lines.len();
    let mut i: usize = 0;
    proof {
        assert(lviews.skip(0) =~= lviews);
        assert(out.deep_view() =~= Seq::<Seq<char>>::empty());
        assert(Seq::<Seq<char>>::empty() + rewrite_lines(lviews, required_args@) =~= rewrite_lines(
            lviews,
            required_args@,
        ));
    }
    while i < n
        invariant
            n == lines.len(),
            lines.deep_view() == lviews,
            0 <= i <= n,
            rewrite_lines(lviews, required_args@) == out.deep_view() + rewrite_lines(
                lviews.skip(i as int),
                required_args@,
            ),
        decreases n - i,
    {
        proof {
            assert(lviews.skip(i as int).drop_first() =~= lviews.skip(i + 1));
            assert(lviews.skip(i as int)[0] == lviews[i as int]);
            assert(lines.deep_view()[i as int] == lines[i as int]@);
        }
        let ghost old_out = out.deep_view();
        let ghost rline = rewrite_line(lviews[i as int], required_args@);
        if str_starts_with(lines[i].as_str(), "GRUB_CMDLINE_LINUX=") {
            let plen = ("GRUB_CMDLINE_LINUX=").unicode_len();
            let llen = lines[i].as_str().unicode_len();
            let raw = lines[i].as_str().substring_char(plen, llen);
            proof {
                assert(raw@ =~= lviews[i as int].skip(grub_prefix().len() as int));
            }
            let value = trim_quotes(raw);
            let merged = add_missing_args(value, required_args);
            let mut nl = ("GRUB_CMDLINE_LINUX=\"").to_owned();
            nl.append(merged.as_str());
            nl.append("\"");
            proof {
                reveal_strlit("GRUB_CMDLINE_LINUX=");
                reveal_strlit("GRUB_CMDLINE_LINUX=\"");
                reveal_strlit("\"");
                assert(("GRUB_CMDLINE_LINUX=\"")@ =~= grub_prefix() + seq!['"']);
                assert(("\"")@ =~= seq!['"']);
                assert(nl@ =~= rline);
            }
            out.push(nl);
        } else {
            proof {
                assert(rline == lviews[i as int]);
            }
            out.push(lines[i].clone());
        }
        proof {
            assert(out.deep_view() =~= old_out.push(rline));
            assert(old_out + (seq![rline] + rewrite_lines(lviews.skip(i + 1), required_args@))
                =~= old_out.push(rline) + rewrite_lines(lviews.skip(i + 1), required_args@));
        }
        i += 1;
    }
    proof {
        assert(lviews.skip(n as int) =~= Seq::<Seq<char>>::empty());
        assert(out.deep_view() + Seq::<Seq<char>>::empty() =~= out.deep_view());
        reveal_strlit("\n");
    }
    join_with(&out, "\n")
}

/// Merging a required set into a command line that already contains every
/// required token leaves the token list unchanged.
pub proof fn lemma_merge_tokens_all_present(cur: Seq<Seq<char>>, req: Seq<Seq<char>>)
    requires
        forall|i: int| 0 <= i < req.len() ==> cur.contains(#[trigger] req[i]),
    ensures
        merge_tokens(cur, req) == cur,
    decreases req.len(),
{
    if req.len() == 0 {
    } else {
        assert(cur.contains(req[0]));
        assert forall|i: int| 0 <= i < req.drop_first().len() implies cur.contains(
            #[trigger] req.drop_first()[i],
        ) by {
            assert(req.drop_first()[i] == req[i + 1]);
        }
        lemma_merge_tokens_all_present(cur, req.drop_first());
    }
}

/// Merging required tokens, none of which are present and which are pairwise
/// distinct, appends exactly those tokens in order.
pub proof fn lemma_merge_tokens_all_new(cur: Seq<Seq<char>>, req: Seq<Seq<char>>)
    requires
        forall|i: int| 0 <= i < req.len() ==> !cur.contains(#[trigger] req[i]),
        forall|i: int, j: int| 0 <= i < j < req.len() ==> req[i] != req[j],
    ensures
        merge_tokens(cur, req) == cur + req,
    decreases req.len(),
{
    if req.len() == 0 {
        assert(cur + req =~= cur);
    } else {
        assert(!cur.contains(req[0]));
        let cur2 = cur.push(req[0]);
        let rest = req.drop_first();
        assert forall|i: int| 0 <= i < rest.len() implies !cur2.contains(#[trigger] rest[i]) by {
            assert(rest[i] == req[i + 1]);
            assert(req[i + 1] != req[0]);
            if cur2.contains(rest[i]) {
                let w = choose|w: int| 0 <= w < cur2.len() && cur2[w] == rest[i];
                if w < cur.len() {
                    assert(cur.contains(rest[i]));
                } else {
                    assert(cur2[w] == req[0]);
                }
            }
        }
        assert forall|i: int, j: int| 0 <= i < j < rest.len() implies rest[i] != rest[j] by {
            assert(rest[i] == req[i + 1]);
            assert(rest[j] == req[j + 1]);
        }
        lemma_merge_tokens_all_new(cur2, rest);
        assert(cur2 + rest =~= cur + req);
    }
}

/// Law: the kernel-argument merge is idempotent.  When the command line
/// already contains every required token, the merged value keeps the original
/// tokens, in their original order, with nothing appended: it is the original
/// value with surrounding whitespace trimmed.
pub proof fn lemma_add_missing_args_idempotent(current: Seq<char>, required: Seq<char>)
    requires
        forall|i: int| 0 <= i < split_spec(required, ' ').len() ==> tokens_of(current).contains(
            #[trigger] split_spec(required, ' ')[i],
        ),
    ensures
        merge_tokens(tokens_of(current), split_spec(required, ' ')) == tokens_of(current),
        merged_cmdline(current, required) == trim_spec(current, space_pred()),
{
    lemma_merge_tokens_all_present(tokens_of(current), split_spec(required, ' '));
    let t = trim_spec(current, space_pred());
    if t.len() == 0 {
        lemma_split_nonempty(required, ' ');
        assert(tokens_of(current).contains(split_spec(required, ' ')[0]));
        assert(false);
    } else {
        lemma_join_split(t, ' ');
    }
}

/// Law: merging into an empty (or all-whitespace) command line yields exactly
/// the required arguments, space-joined, in the required list's order,
/// provided the required tokens are pairwise distinct.
pub proof fn lemma_add_missing_args_empty(current: Seq<char>, required: Seq<char>)
    requires
        trim_spec(current, space_pred()).len() == 0,
        forall|i: int, j: int| 0 <= i < j < split_spec(required, ' ').len() ==> split_spec(
            required,
            ' ',
        )[i] != split_spec(required, ' ')[j],
    ensures
        merge_tokens(tokens_of(current), split_spec(required, ' ')) == split_spec(required, ' '),
        merged_cmdline(current, required) == required,
{
    let req = split_spec(required, ' ');
    assert(tokens_of(current) =~= Seq::<Seq<char>>::empty());
    assert forall|i: int| 0 <= i < req.len() implies !tokens_of(current).contains(
        #[trigger] req[i],
    ) by {}
    lemma_merge_tokens_all_new(tokens_of(current), req);
    assert(tokens_of(current) + req =~= req);
    lemma_join_split(required, ' ');
}

} // verus!
