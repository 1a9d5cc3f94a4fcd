use vstd::prelude::*;
use vstd::string::*;
use crate::types::Options;

verus! {

pub open spec fn digit_char(d: nat) -> char {
    seq!['0', '1', '2', '3', '4', '5', '6', '7', '8', '9'][d as int]
}

/// The decimal numeral of `n`, without leading zeros.
pub open spec fn decimal(n: nat) -> Seq<char>
    decreases n,
{
    if n < 10 {
        seq![digit_char(n)]
    } else {
        decimal(n / 10).push(digit_char(n % 10))
    }
}

/// `{base}/projects/{project}/merge_requests/{iid}/changes`
pub open spec fn changes_url_of(base: Seq<char>, project: u64, iid: u64) -> Seq<char> {
    base + "/projects/"@ + decimal(project as nat) + "/merge_requests/"@ + decimal(iid as nat)
        + "/changes"@
}

/// `{base}/projects/{project}/repository/files/LABELS/raw?ref={branch}`
pub open spec fn config_url_of(base: Seq<char>, project: u64, branch: Seq<char>) -> Seq<char> {
    base + "/projects/"@ + decimal(project as nat) + "/repository/files/LABELS/raw?ref="@ + branch
}

/// `{base}/projects/{project}/merge_requests/{iid}`
pub open spec fn labels_url_of(base: Seq<char>, project: u64, iid: u64) -> Seq<char> {
    base + "/projects/"@ + decimal(project as nat) + "/merge_requests/"@ + decimal(iid as nat)
}

fn digit_str(d: u64) -> (r: &'static str)
    requires
        d < 10,
    ensures
        r@ == seq![digit_char(d as nat)],
{
    proof {
        reveal_strlit("0");
        reveal_strlit("1");
        reveal_strlit("2");
        reveal_strlit("3");
        reveal_strlit("4");
        reveal_strlit("5");
        reveal_strlit("6");
        reveal_strlit("7");
        reveal_strlit("8");
        reveal_strlit("9");
    }
    let r = match d {
        0 => "0",
        1 => "1",
        2 => "2",
        3 => "3",
        4 => "4",
        5 => "5",
        6 => "6",
        7 => "7",
        8 => "8",
        _ => "9",
    };
    assert(r@ =~= seq![digit_char(d as nat)]);
    r
}

/// Appends the decimal numeral of `n` to `out`.
pub(crate) fn append_decimal(out: &mut String, n: u64)
    ensures
        final(out)@ == old(out)@ + decimal(n as nat),
    decreases n,
{
    if n < 10 {
        out.append(digit_str(n));
    } else {
        append_decimal(out, n / 10);
        out.append(digit_str(n % 10));
        assert(final(out)@ =~= old(out)@ + decimal(n as nat));
    }
}

/// Where the changes of merge request `iid` of `project` are read.
pub fn changes_url(opts: &Options, project: u64, iid: u64) -> (r: String)
    ensures
        r@ == changes_url_of(opts.gitlab_uri@, project, iid),
{
    let mut r = opts.gitlab_uri.clone();
    r.append("/projects/");
    append_decimal(&mut r, project);
    r.append("/merge_requests/");
    append_decimal(&mut r, iid);
    r.append("/changes");
    r
}

/// Where the label configuration of `project` is read, from the configured branch.
pub fn config_url(opts: &Options, project: u64) -> (r: String)
    ensures
        r@ == config_url_of(opts.gitlab_uri@, project, opts.config_branch@),
{
    let mut r = opts.gitlab_uri.clone();
    r.append("/projects/");
    append_decimal(&mut r, project);
    r.append("/repository/files/LABELS/raw?ref=");
    r.append(opts.config_branch.as_str());
    r
}

/// Where the labels of merge request `iid` of `project` are set.
pub fn labels_url(opts: &Options, project: u64, iid: u64) -> (r: String)
    ensures
        r@ == labels_url_of(opts.gitlab_uri@, project, iid),
{
    let mut r = opts.gitlab_uri.clone();
    r.append("/projects/");
    append_decimal(&mut r, project);
    r.append("/merge_requests/");
    append_decimal(&mut r, iid);
    r
}

} // verus!
