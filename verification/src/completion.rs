//! Dynamic shell completion: which candidates a `tdc __complete` request asks
//! for, and how they are read out of Lima's listings.
use vstd::prelude::*;

use crate::cli::VmTargetArgs;
use crate::model::{default_vm_name, is_slug, is_valid_slug, vm_default};
use crate::text::{
    char_views, chars_of, contains_seq, lines, lines_chars, replace_all, replace_all_str, string_of,
    str_eq, strip_prefix, strip_prefix_chars, trim, trim_chars, views,
};
use crate::vscode::opt_string_view;

verus! {

/// What a `tdc __complete ...` request asks for.
#[derive(Clone, Debug)]
pub enum CompletionRequest {
    /// Client slugs of the `client-*` VMs.
    Clients,
    /// All Lima VM names.
    Vms,
    /// The snapshot tags of the VM that the remaining flags select.
    SnapshotTags(VmTargetArgs),
    /// Nothing to complete.
    Nothing,
}

/// `--client`/`--vm` as read from completion words, left to right: the flag
/// takes the next word (none when it is the last), `--flag=value` takes its
/// value, a later flag overrides an earlier one, other words are ignored.
pub open spec fn read_target(
    args: Seq<Seq<char>>,
    client: Option<Seq<char>>,
    vm: Option<Seq<char>>,
) -> (Option<Seq<char>>, Option<Seq<char>>)
    decreases args.len(),
{
    if args.len() == 0 {
        (client, vm)
    } else {
        let next = if args.len() > 1 {
            Some(args[1])
        } else {
            None
        };
        let rest = if args.len() > 1 {
            args.skip(2)
        } else {
            args.skip(1)
        };
        if args[0] == "--client"@ {
            read_target(rest, next, vm)
        } else if args[0] == "--vm"@ {
            read_target(rest, client, next)
        } else if let Some(v) = strip_prefix(args[0], "--client="@) {
            read_target(args.drop_first(), Some(v), vm)
        } else if let Some(v) = strip_prefix(args[0], "--vm="@) {
            read_target(args.drop_first(), client, Some(v))
        } else {
            read_target(args.drop_first(), client, vm)
        }
    }
}

/// The `--client` and `--vm` that the words `args` select.
pub open spec fn completion_target_spec(args: Seq<Seq<char>>) -> (
    Option<Seq<char>>,
    Option<Seq<char>>,
) {
    read_target(args, None, None)
}

fn owned_opt(v: &Option<Vec<char>>) -> (r: Option<String>)
    ensures
        opt_string_view(r) == match v {
            Some(x) => Some(x@),
            None => None::<Seq<char>>,
        },
{
    match v {
        Some(x) => Some(string_of(x.as_slice())),
        None => None,
    }
}

spec fn opt_chars_view(v: Option<Vec<char>>) -> Option<Seq<char>> {
    match v {
        Some(x) => Some(x@),
        None => None,
    }
}

pub fn parse_completion_target(args: &[String]) -> (r: VmTargetArgs)
    ensures
        (opt_string_view(r.client), opt_string_view(r.vm)) == completion_target_spec(
            views(args@),
        ),
{
    let ghost all = views(args@);
    let client_flag = chars_of("--client");
    let vm_flag = chars_of("--vm");
    let client_eq = chars_of("--client=");
    let vm_eq = chars_of("--vm=");
    let mut client: Option<Vec<char>> = None;
    let mut vm: Option<Vec<char>> = None;
    let mut i: usize = 0;
    assert(all.skip(0) =~= all);
    while i < args.len()
        invariant
            0 <= i <= args.len(),
            all == views(args@),
            client_flag@ == "--client"@,
            vm_flag@ == "--vm"@,
            client_eq@ == "--client="@,
            vm_eq@ == "--vm="@,
            completion_target_spec(all) == read_target(
                all.skip(i as int),
                opt_chars_view(client),
                opt_chars_view(vm),
            ),
        decreases args.len() - i,
    {
        let ghost rest = all.skip(i as int);
        assert(rest[0] == args@[i as int]@);
        let arg = chars_of(args[i].as_str());
        let next: Option<Vec<char>> = if i + 1 < args.len() {
            assert(rest[1] == args@[i + 1]@);
            Some(chars_of(args[i + 1].as_str()))
        } else {
            None
        };
        if crate::text::chars_eq(arg.as_slice(), client_flag.as_slice()) {
            client = next;
            if i + 1 < args.len() {
                assert(rest.skip(2) =~= all.skip(i + 2));
                i = i + 2;
            } else {
                assert(rest.skip(1) =~= all.skip(i + 1));
                i = i + 1;
            }
        } else if crate::text::chars_eq(arg.as_slice(), vm_flag.as_slice()) {
            vm = next;
            if i + 1 < args.len() {
                assert(rest.skip(2) =~= all.skip(i + 2));
                i = i + 2;
            } else {
                assert(rest.skip(1) =~= all.skip(i + 1));
                i = i + 1;
            }
        } else {
            assert(rest.drop_first() =~= all.skip(i + 1));
            if let Some(v) = strip_prefix_chars(arg.as_slice(), client_eq.as_slice()) {
                client = Some(v);
            } else if let Some(v) = strip_prefix_chars(arg.as_slice(), vm_eq.as_slice()) {
                vm = Some(v);
            }
            i = i + 1;
        }
    }
    assert(all.skip(i as int) =~= Seq::<Seq<char>>::empty());
    VmTargetArgs { client: owned_opt(&client), vm: owned_opt(&vm) }
}

/// A completion request in specifications: the selected `--client`/`--vm`
/// text for snapshot tags.
pub enum RequestView {
    Clients,
    Vms,
    SnapshotTags(Option<Seq<char>>, Option<Seq<char>>),
    Nothing,
}

impl View for CompletionRequest {
    type V = RequestView;

    open spec fn view(&self) -> RequestView {
        match self {
            CompletionRequest::Clients => RequestView::Clients,
            CompletionRequest::Vms => RequestView::Vms,
            CompletionRequest::SnapshotTags(t) => RequestView::SnapshotTags(
                opt_string_view(t.client),
                opt_string_view(t.vm),
            ),
            CompletionRequest::Nothing => RequestView::Nothing,
        }
    }
}

/// The request named by the first word; the other words are its flags.
pub open spec fn completion_request_spec(args: Seq<Seq<char>>) -> RequestView {
    if args.len() == 0 {
        RequestView::Nothing
    } else if args[0] == "clients"@ {
        RequestView::Clients
    } else if args[0] == "vms"@ {
        RequestView::Vms
    } else if args[0] == "snapshot-tags"@ {
        let t = completion_target_spec(args.drop_first());
        RequestView::SnapshotTags(t.0, t.1)
    } else {
        RequestView::Nothing
    }
}

/// Reads a `tdc __complete` request from the words after `__complete`.
pub fn complete(args: &[String]) -> (r: CompletionRequest)
    ensures
        r@ == completion_request_spec(views(args@)),
{
    if args.len() == 0 {
        return CompletionRequest::Nothing;
    }
    assert(views(args@)[0] == args@[0]@);
    let first = args[0].as_str();
    if crate::text::str_eq(first, "clients") {
        CompletionRequest::Clients
    } else if crate::text::str_eq(first, "vms") {
        CompletionRequest::Vms
    } else if crate::text::str_eq(first, "snapshot-tags") {
        let rest = crate::text::slice_strings(args, 1);
        assert(views(rest@) =~= views(args@).drop_first());
        CompletionRequest::SnapshotTags(parse_completion_target(rest.as_slice()))
    } else {
        CompletionRequest::Nothing
    }
}

/// The client slug of a `client-<slug>` VM name.
pub open spec fn client_of_vm_spec(vm: Seq<char>) -> Option<Seq<char>> {
    match strip_prefix(vm, "client-"@) {
        Some(c) => if is_slug(c) {
            Some(c)
        } else {
            None
        },
        None => None,
    }
}

pub fn client_from_vm_name(vm: &str) -> (r: Option<String>)
    ensures
        opt_string_view(r) == client_of_vm_spec(vm@),
{
    let v = chars_of(vm);
    let prefix = chars_of("client-");
    match strip_prefix_chars(v.as_slice(), prefix.as_slice()) {
        Some(c) => {
            let s = string_of(c.as_slice());
            if is_valid_slug(s.as_str()) {
                Some(s)
            } else {
                None
            }
        },
        None => None,
    }
}

/// The VM whose snapshot tags are completed: exactly one of `--client` and
/// `--vm`, and a valid slug.
pub open spec fn completion_vm_spec(client: Option<Seq<char>>, vm: Option<Seq<char>>) -> Option<
    Seq<char>,
> {
    match (client, vm) {
        (Some(c), None) => if is_slug(c) {
            Some(default_vm_name(c))
        } else {
            None
        },
        (None, Some(v)) => if is_slug(v) {
            Some(v)
        } else {
            None
        },
        _ => None,
    }
}

pub fn completion_target_vm(args: &VmTargetArgs) -> (r: Option<String>)
    ensures
        opt_string_view(r) == completion_vm_spec(
            opt_string_view(args.client),
            opt_string_view(args.vm),
        ),
{
    match (&args.client, &args.vm) {
        (Some(client), None) => {
            if is_valid_slug(client.as_str()) {
                Some(vm_default(client.as_str()))
            } else {
                None
            }
        },
        (None, Some(vm)) => {
            if is_valid_slug(vm.as_str()) {
                Some(vm.clone())
            } else {
                None
            }
        },
        _ => None,
    }
}

/// Completion reads a client's default VM back to that client: the client
/// slugs offered for `--client` are exactly those of the `client-*` VMs.
pub proof fn lemma_client_of_default_vm(client: Seq<char>)
    requires
        is_slug(client),
    ensures
        client_of_vm_spec(default_vm_name(client)) == Some(client),
{
    reveal_strlit("client-");
    let vm = default_vm_name(client);
    assert("client-"@.is_prefix_of(vm));
    assert(vm.skip(7) =~= client);
}

/// The VM whose snapshot tags are completed for `--client C` is the VM that
/// `tdc vm ... --client C` selects, and `--vm V` selects V.
pub proof fn lemma_completion_target_matches_command_target(
    client: Option<Seq<char>>,
    vm: Option<Seq<char>>,
    usage: Seq<char>,
)
    ensures
        completion_vm_spec(client, vm) matches Some(v) ==> crate::workflow::target_vm_spec(
            client,
            vm,
            usage,
        ) == Ok::<Seq<char>, crate::error::ErrorView>(v),
{
}

/// The client slugs among VM names, in order.
pub open spec fn clients_of_vms(vms: Seq<Seq<char>>) -> Seq<Seq<char>>
    decreases vms.len(),
{
    if vms.len() == 0 {
        seq![]
    } else {
        clients_of_vms(vms.drop_last()) + match client_of_vm_spec(vms.last()) {
            Some(c) => seq![c],
            None => seq![],
        }
    }
}

/// `--client` completion offers exactly the clients whose default VM is listed:
/// a valid client is offered if and only if `client-<client>` is among the VMs.
pub proof fn lemma_completion_offers_listed_clients(vms: Seq<Seq<char>>, client: Seq<char>)
    requires
        is_slug(client),
    ensures
        clients_of_vms(vms).contains(client) <==> vms.contains(default_vm_name(client)),
    decreases vms.len(),
{
    if vms.len() > 0 {
        let init = vms.drop_last();
        let last = vms.last();
        lemma_completion_offers_listed_clients(init, client);
        lemma_client_of_default_vm(client);
        let tail: Seq<Seq<char>> = match client_of_vm_spec(last) {
            Some(c) => seq![c],
            None => seq![],
        };
        let cs = clients_of_vms(vms);
        assert(cs == clients_of_vms(init) + tail);
        assert(vms =~= init.push(last));
        if last == default_vm_name(client) {
            assert(tail == seq![client]);
            assert(cs[cs.len() - 1] == client);
        } else {
            assert(!tail.contains(client)) by {
                if tail.contains(client) {
                    assert(tail[0] == client);
                    reveal_strlit("client-");
                    let c = client_of_vm_spec(last)->Some_0;
                    assert(strip_prefix(last, "client-"@) == Some(c));
                    assert("client-"@.is_prefix_of(last));
                    assert(last =~= "client-"@ + last.skip(7));
                    assert(last.skip(7) == c);
                    assert(last =~= default_vm_name(client));
                }
            }
        }
        if cs.contains(client) {
            let j = choose|j: int| 0 <= j < cs.len() && cs[j] == client;
            if j < clients_of_vms(init).len() {
                assert(clients_of_vms(init)[j] == client);
            } else {
                assert(tail[j - clients_of_vms(init).len()] == client);
            }
        }
        if clients_of_vms(init).contains(client) {
            let j = choose|j: int| 0 <= j < clients_of_vms(init).len() && clients_of_vms(init)[j] == client;
            assert(cs[j] == client);
        }
        if vms.contains(default_vm_name(client)) && last != default_vm_name(client) {
            let j = choose|j: int| 0 <= j < vms.len() && vms[j] == default_vm_name(client);
            assert(init[j] == default_vm_name(client));
        }
        if init.contains(default_vm_name(client)) {
            let j = choose|j: int| 0 <= j < init.len() && init[j] == default_vm_name(client);
            assert(vms[j] == default_vm_name(client));
        }
    }
}

/// The client slugs of the `client-*` VMs among `vms`.
pub fn completion_clients(vms: &[String]) -> (r: Vec<String>)
    ensures
        views(r@) == clients_of_vms(views(vms@)),
{
    let mut r: Vec<String> = Vec::new();
    let mut i: usize = 0;
    while i < vms.len()
        invariant
            0 <= i <= vms.len(),
            views(r@) == clients_of_vms(views(vms@.take(i as int))),
        decreases vms.len() - i,
    {
        assert(views(vms@.take(i + 1)).drop_last() =~= views(vms@.take(i as int)));
        assert(views(vms@.take(i + 1)).last() == vms@[i as int]@);
        let ghost before = r@;
        if let Some(c) = client_from_vm_name(vms[i].as_str()) {
            r.push(c);
            assert(views(r@) =~= views(before) + seq![views(r@).last()]);
        } else {
            assert(views(r@) =~= views(before) + Seq::<Seq<char>>::empty());
        }
        i = i + 1;
    }
    assert(vms@.take(vms.len() as int) =~= vms@);
    r
}

/// The trimmed lines of `s` that satisfy `keep`, in order.
pub open spec fn kept_lines(ls: Seq<Seq<char>>, slugs_only: bool) -> Seq<Seq<char>>
    decreases ls.len(),
{
    if ls.len() == 0 {
        seq![]
    } else {
        let t = trim(ls.last());
        kept_lines(ls.drop_last(), slugs_only) + if (slugs_only && is_slug(t)) || (!slugs_only
            && t.len() > 0) {
            seq![t]
        } else {
            seq![]
        }
    }
}

fn kept_listing_lines(listing: &str, slugs_only: bool) -> (r: Vec<String>)
    ensures
        views(r@) == kept_lines(lines(listing@), slugs_only),
{
    let v = chars_of(listing);
    let ls = lines_chars(v.as_slice());
    let ghost all = char_views(ls@);
    let mut r: Vec<String> = Vec::new();
    let mut i: usize = 0;
    while i < ls.len()
        invariant
            0 <= i <= ls.len(),
            all == char_views(ls@),
            all == lines(listing@),
            views(r@) == kept_lines(all.take(i as int), slugs_only),
        decreases ls.len() - i,
    {
        assert(all.take(i + 1).drop_last() =~= all.take(i as int));
        assert(all.take(i + 1).last() == ls@[i as int]@);
        let t = trim_chars(ls[i].as_slice());
        let ts = string_of(t.as_slice());
        let keep = if slugs_only {
            is_valid_slug(ts.as_str())
        } else {
            t.len() > 0
        };
        let ghost before = r@;
        if keep {
            r.push(ts);
            assert(views(r@) =~= views(before) + seq![t@]);
        } else {
            assert(views(r@) =~= views(before) + Seq::<Seq<char>>::empty());
        }
        i = i + 1;
    }
    assert(all.take(ls.len() as int) =~= all);
    r
}

/// The VM names in the output of `limactl list --quiet`: trimmed lines that
/// are valid slugs.
pub fn vm_names_from_listing(listing: &str) -> (r: Vec<String>)
    ensures
        views(r@) == kept_lines(lines(listing@), true),
{
    kept_listing_lines(listing, true)
}

/// The snapshot tags in the output of `limactl snapshot list --quiet`:
/// non-blank lines, trimmed.
pub fn snapshot_tags_from_listing(listing: &str) -> (r: Vec<String>)
    ensures
        views(r@) == kept_lines(lines(listing@), false),
{
    kept_listing_lines(listing, false)
}

/// Whether `a` sorts before `b` in the order of `str`: the first differing
/// char decides, and a proper prefix comes first.
pub open spec fn text_lt(a: Seq<char>, b: Seq<char>) -> bool
    decreases a.len(),
{
    if b.len() == 0 {
        false
    } else if a.len() == 0 {
        true
    } else if a[0] != b[0] {
        a[0] < b[0]
    } else {
        text_lt(a.drop_first(), b.drop_first())
    }
}

/// Texts in increasing order, none twice.
pub open spec fn strictly_sorted(s: Seq<Seq<char>>) -> bool {
    forall|i: int, j: int| 0 <= i < j < s.len() ==> text_lt(#[trigger] s[i], #[trigger] s[j])
}

proof fn lemma_text_lt_irreflexive(a: Seq<char>)
    ensures
        !text_lt(a, a),
    decreases a.len(),
{
    if a.len() > 0 {
        lemma_text_lt_irreflexive(a.drop_first());
    }
}

proof fn lemma_text_lt_transitive(a: Seq<char>, b: Seq<char>, c: Seq<char>)
    requires
        text_lt(a, b),
        text_lt(b, c),
    ensures
        text_lt(a, c),
    decreases a.len(),
{
    if a.len() > 0 && b.len() > 0 && c.len() > 0 && a[0] == b[0] && b[0] == c[0] {
        lemma_text_lt_transitive(a.drop_first(), b.drop_first(), c.drop_first());
    }
}

proof fn lemma_text_lt_total(a: Seq<char>, b: Seq<char>)
    requires
        a != b,
    ensures
        text_lt(a, b) || text_lt(b, a),
    decreases a.len(),
{
    if a.len() > 0 && b.len() > 0 && a[0] == b[0] {
        if a.drop_first() == b.drop_first() {
            assert(a =~= seq![a[0]] + a.drop_first());
            assert(b =~= seq![b[0]] + b.drop_first());
        }
        lemma_text_lt_total(a.drop_first(), b.drop_first());
    } else if a.len() == 0 && b.len() == 0 {
        assert(a =~= b);
    }
}

proof fn lemma_push_to_set(s: Seq<Seq<char>>, x: Seq<char>)
    ensures
        s.push(x).to_set() == s.to_set().insert(x),
{
    assert forall|t: Seq<char>| s.push(x).to_set().contains(t) <==> s.to_set().insert(x).contains(
        t,
    ) by {
        if s.push(x).to_set().contains(t) && t != x {
            let j = choose|j: int| 0 <= j < s.push(x).len() && s.push(x)[j] == t;
            assert(s[j] == t);
        }
        if s.to_set().contains(t) {
            let j = choose|j: int| 0 <= j < s.len() && s[j] == t;
            assert(s.push(x)[j] == t);
        }
        if t == x {
            assert(s.push(x)[s.len() as int] == t);
        }
    }
    assert(s.push(x).to_set() =~= s.to_set().insert(x));
}

/// Whether `a` sorts before `b` (`a < b` on `str`).
pub fn text_less(a: &str, b: &str) -> (r: bool)
    ensures
        r == text_lt(a@, b@),
{
    let va = chars_of(a);
    let vb = chars_of(b);
    let mut i: usize = 0;
    assert(a@.skip(0) =~= a@);
    assert(b@.skip(0) =~= b@);
    while i < va.len() && i < vb.len() && va[i] == vb[i]
        invariant
            0 <= i <= va.len(),
            i <= vb.len(),
            va@ == a@,
            vb@ == b@,
            text_lt(a@, b@) == text_lt(a@.skip(i as int), b@.skip(i as int)),
        decreases va.len() - i,
    {
        assert(a@.skip(i as int).drop_first() =~= a@.skip(i + 1));
        assert(b@.skip(i as int).drop_first() =~= b@.skip(i + 1));
        i = i + 1;
    }
    if i == vb.len() {
        false
    } else if i == va.len() {
        true
    } else {
        va[i] < vb[i]
    }
}

/// The candidates as they are printed: sorted, each once (`sort` then `dedup`).
pub fn completion_lines(values: &[String]) -> (r: Vec<String>)
    ensures
        strictly_sorted(views(r@)),
        views(r@).to_set() == views(values@).to_set(),
{
    let mut r: Vec<String> = Vec::new();
    let mut i: usize = 0;
    while i < values.len()
        invariant
            0 <= i <= values.len(),
            strictly_sorted(views(r@)),
            views(r@).to_set() == views(values@.take(i as int)).to_set(),
        decreases values.len() - i,
    {
        let x = &values[i];
        let mut k: usize = 0;
        while k < r.len() && text_less(r[k].as_str(), x.as_str())
            invariant
                0 <= k <= r.len(),
                forall|j: int| 0 <= j < k ==> text_lt(#[trigger] views(r@)[j], x@),
            decreases r.len() - k,
        {
            k = k + 1;
        }
        let ghost old_r = views(r@);
        assert(views(values@.take(i + 1)) =~= views(values@.take(i as int)).push(x@));
        proof {
            lemma_push_to_set(views(values@.take(i as int)), x@);
        }
        if k < r.len() && str_eq(r[k].as_str(), x.as_str()) {
            assert(views(r@).to_set() =~= views(r@).to_set().insert(x@)) by {
                assert(views(r@)[k as int] == x@);
            }
        } else {
            proof {
                if k < r.len() {
                    lemma_text_lt_total(old_r[k as int], x@);
                }
                assert forall|j: int| k <= j < old_r.len() implies text_lt(x@, #[trigger] old_r[j]) by {
                    if j > k {
                        lemma_text_lt_transitive(x@, old_r[k as int], old_r[j]);
                    }
                }
            }
            r.insert(k, x.clone());
            assert(views(r@) =~= old_r.insert(k as int, x@));
            assert(strictly_sorted(views(r@))) by {
                assert forall|a: int, b: int| 0 <= a < b < views(r@).len() implies text_lt(
                    #[trigger] views(r@)[a],
                    #[trigger] views(r@)[b],
                ) by {
                    if b < k {
                    } else if a < k && b == k {
                    } else if a < k {
                        lemma_text_lt_transitive(old_r[a], x@, old_r[b - 1]);
                    } else if a == k {
                    } else {
                    }
                }
            }
            assert(views(r@).to_set() =~= old_r.to_set().insert(x@)) by {
                assert forall|t: Seq<char>| views(r@).to_set().contains(t) <==> old_r.to_set().insert(
                    x@,
                ).contains(t) by {
                    if views(r@).to_set().contains(t) {
                        let j = choose|j: int| 0 <= j < views(r@).len() && views(r@)[j] == t;
                        if j != k {
                            if j < k {
                                assert(old_r[j] == t);
                            } else {
                                assert(old_r[j - 1] == t);
                            }
                        }
                    }
                    if old_r.to_set().contains(t) {
                        let j = choose|j: int| 0 <= j < old_r.len() && old_r[j] == t;
                        if j < k {
                            assert(views(r@)[j] == t);
                        } else {
                            assert(views(r@)[j + 1] == t);
                        }
                    }
                    if t == x@ {
                        assert(views(r@)[k as int] == t);
                    }
                }
            }
        }
        i = i + 1;
    }
    assert(values@.take(values.len() as int) =~= values@);
    r
}

/// The zsh functions that complete clients, VMs and snapshot tags by calling
/// back into `tdc __complete`.
pub const ZSH_DYNAMIC_COMPLETIONS: &'static str = r#"

_tdc_complete_clients() {
    local -a clients
    clients=("${(@f)$(_call_program tdc-clients tdc __complete clients 2>/dev/null)}")
    if (( ${#clients[@]} )); then
        compadd -a clients
    else
        _message 'no tdc client VMs found'
    fi
}

_tdc_complete_vms() {
    local -a vms
    vms=("${(@f)$(_call_program tdc-vms tdc __complete vms 2>/dev/null)}")
    if (( ${#vms[@]} )); then
        compadd -a vms
    else
        _message 'no Lima VMs found'
    fi
}

_tdc_complete_snapshot_tags() {
    local -a args tags
    local client vm word
    local i

    for (( i = 1; i <= ${#words[@]}; i++ )); do
        word="${words[i]}"
        case "${word}" in
            --client)
                if (( i < ${#words[@]} )); then
                    client="${words[i + 1]}"
                fi
                ;;
            --client=*)
                client="${word#--client=}"
                ;;
            --vm)
                if (( i < ${#words[@]} )); then
                    vm="${words[i + 1]}"
                fi
                ;;
            --vm=*)
                vm="${word#--vm=}"
                ;;
        esac
    done

    if [[ -n "${client}" ]]; then
        args+=(--client "${client}")
    fi
    if [[ -n "${vm}" ]]; then
        args+=(--vm "${vm}")
    fi

    tags=("${(@f)$(_call_program tdc-snapshot-tags tdc __complete snapshot-tags "${args[@]}" 2>/dev/null)}")
    if (( ${#tags[@]} )); then
        compadd -a tags
    else
        _message 'no snapshots found'
    fi
}
"#;

/// The generated zsh script with the default completers of `CLIENT`, `VM` and
/// `TAG` values swapped for the dynamic ones, which are appended.
pub open spec fn zsh_script_spec(generated: Seq<char>) -> Seq<char> {
    zsh_patched(generated) + ZSH_DYNAMIC_COMPLETIONS@
}

pub fn patch_zsh_completion(generated: &str) -> (r: String)
    ensures
        r@ == zsh_script_spec(generated@),
{
    proof {
        reveal_strlit(":CLIENT:_default");
        reveal_strlit(":VM:_default");
        reveal_strlit(":TAG:_default");
    }
    let s = replace_all_str(generated, ":CLIENT:_default", ":CLIENT:_tdc_complete_clients");
    let s = replace_all_str(s.as_str(), ":VM:_default", ":VM:_tdc_complete_vms");
    let mut s = replace_all_str(s.as_str(), ":TAG:_default", ":TAG:_tdc_complete_snapshot_tags");
    s.append(ZSH_DYNAMIC_COMPLETIONS);
    s
}

// ---------------------------------------------------------------------------
// What the zsh patch leaves
// ---------------------------------------------------------------------------

/// Whether writing `t` in place of matches cannot make an occurrence of `p`:
/// `p` is no longer than `t` and does not occur in it, no end of `t` starts
/// `p`, and no proper end of `p` starts `t`.
pub open spec fn replacement_keeps_out(t: Seq<char>, p: Seq<char>) -> bool {
    &&& 0 < p.len() <= t.len()
    &&& !contains_seq(t, p)
    &&& forall|k: int|
        0 < k < t.len() && t.len() - k < p.len() ==> !(#[trigger] t.skip(k)).is_prefix_of(p)
    &&& forall|k: int| 0 < k < p.len() ==> !(#[trigger] p.skip(k)).is_prefix_of(t)
}

/// A text that no end of which starts `t`, found at the start of the result of
/// replacing, was at the start of the text that was replaced in.
proof fn lemma_prefix_survives(s: Seq<char>, f: Seq<char>, t: Seq<char>, u: Seq<char>)
    requires
        f.len() > 0,
        u.len() <= t.len(),
        forall|k: int| 0 <= k < u.len() ==> !(#[trigger] u.skip(k)).is_prefix_of(t),
        u.is_prefix_of(replace_all(s, f, t)),
    ensures
        u.is_prefix_of(s),
    decreases s.len(),
{
    if u.len() == 0 || s.len() == 0 {
    } else if f.is_prefix_of(s) {
        let r = replace_all(s.skip(f.len() as int), f, t);
        assert(replace_all(s, f, t) == t + r);
        assert(u.skip(0) =~= u);
        assert(u =~= t.subrange(0, u.len() as int)) by {
            assert forall|j: int| 0 <= j < u.len() implies u[j] == t[j] by {
                assert(u[j] == (t + r)[j]);
            }
        }
    } else {
        let s1 = s.drop_first();
        let r1 = replace_all(s1, f, t);
        assert(replace_all(s, f, t) == seq![s[0]] + r1);
        let v = u.skip(1);
        assert(v.is_prefix_of(r1)) by {
            assert forall|j: int| 0 <= j < v.len() implies v[j] == r1[j] by {
                assert(u[j + 1] == (seq![s[0]] + r1)[j + 1]);
            }
        }
        assert forall|k: int| 0 <= k < v.len() implies !(#[trigger] v.skip(k)).is_prefix_of(t) by {
            assert(v.skip(k) =~= u.skip(k + 1));
        }
        lemma_prefix_survives(s1, f, t, v);
        assert(u[0] == s[0]) by {
            assert(u[0] == (seq![s[0]] + r1)[0]);
        }
        assert forall|j: int| 0 <= j < u.len() implies u[j] == s[j] by {
            if j > 0 {
                assert(u[j] == v[j - 1]);
                assert(s[j] == s1[j - 1]);
            }
        }
    }
}

/// Replacing `f` by `t` leaves no occurrence of `p` when `t` keeps `p` out and
/// `p` is `f` itself or did not occur before.
pub proof fn lemma_replace_all_keeps_out(s: Seq<char>, f: Seq<char>, t: Seq<char>, p: Seq<char>)
    requires
        f.len() > 0,
        replacement_keeps_out(t, p),
        p == f || !contains_seq(s, p),
    ensures
        !contains_seq(replace_all(s, f, t), p),
    decreases s.len(),
{
    let r = replace_all(s, f, t);
    if s.len() == 0 {
        assert(r == s);
        if contains_seq(r, p) {
            let i = choose|i: int| 0 <= i <= r.len() && p.is_prefix_of(#[trigger] r.skip(i));
            assert(r.skip(i).len() == 0);
        }
    } else if f.is_prefix_of(s) {
        let s2 = s.skip(f.len() as int);
        let r2 = replace_all(s2, f, t);
        assert(r == t + r2);
        if p != f {
            assert(!contains_seq(s2, p)) by {
                if contains_seq(s2, p) {
                    let j = choose|j: int| 0 <= j <= s2.len() && p.is_prefix_of(#[trigger] s2.skip(j));
                    assert(s2.skip(j) =~= s.skip(j + f.len()));
                }
            }
        }
        lemma_replace_all_keeps_out(s2, f, t, p);
        if contains_seq(r, p) {
            let i = choose|i: int| 0 <= i <= r.len() && p.is_prefix_of(#[trigger] r.skip(i));
            if i + p.len() <= t.len() {
                assert(p.is_prefix_of(t.skip(i))) by {
                    assert forall|j: int| 0 <= j < p.len() implies p[j] == t.skip(i)[j] by {
                        assert(p[j] == r.skip(i)[j]);
                    }
                }
            } else if i >= t.len() {
                assert(r.skip(i) =~= r2.skip(i - t.len()));
            } else {
                assert(t.skip(i).is_prefix_of(p)) by {
                    assert forall|j: int| 0 <= j < t.len() - i implies t.skip(i)[j] == p[j] by {
                        assert(p[j] == r.skip(i)[j]);
                    }
                }
            }
        }
    } else {
        let s1 = s.drop_first();
        let r1 = replace_all(s1, f, t);
        assert(r == seq![s[0]] + r1);
        if p != f {
            assert(!contains_seq(s1, p)) by {
                if contains_seq(s1, p) {
                    let j = choose|j: int| 0 <= j <= s1.len() && p.is_prefix_of(#[trigger] s1.skip(j));
                    assert(s1.skip(j) =~= s.skip(j + 1));
                }
            }
        }
        lemma_replace_all_keeps_out(s1, f, t, p);
        if contains_seq(r, p) {
            let i = choose|i: int| 0 <= i <= r.len() && p.is_prefix_of(#[trigger] r.skip(i));
            if i == 0 {
                let v = p.skip(1);
                assert(r.skip(0) =~= r);
                assert(v.is_prefix_of(r1)) by {
                    assert forall|j: int| 0 <= j < v.len() implies v[j] == r1[j] by {
                        assert(p[j + 1] == r[j + 1]);
                    }
                }
                assert forall|k: int| 0 <= k < v.len() implies !(#[trigger] v.skip(k)).is_prefix_of(
                    t,
                ) by {
                    assert(v.skip(k) =~= p.skip(k + 1));
                }
                lemma_prefix_survives(s1, f, t, v);
                assert(p.is_prefix_of(s)) by {
                    assert forall|j: int| 0 <= j < p.len() implies p[j] == s[j] by {
                        if j == 0 {
                            assert(p[0] == r[0]);
                        } else {
                            assert(p[j] == v[j - 1]);
                            assert(s[j] == s1[j - 1]);
                        }
                    }
                }
                assert(s.skip(0) =~= s);
            } else {
                assert(r.skip(i) =~= r1.skip(i - 1));
            }
        }
    }
}

/// `t` keeps `p` out when both start with the same mark, the mark occurs in
/// either only where the text after it cannot continue the other, and the two
/// differ at `d`.
proof fn lemma_keeps_out_by_marks(t: Seq<char>, p: Seq<char>, d: int)
    requires
        2 <= p.len() <= t.len(),
        0 <= d < p.len(),
        p[d] != t[d],
        p[0] == t[0],
        forall|k: int|
            0 < k < t.len() && #[trigger] t[k] == p[0] ==> k + p.len() <= t.len() && t[k + 1]
                != p[1],
        forall|k: int| 0 < k < p.len() && #[trigger] p[k] == t[0] ==> k + 1 < p.len() && p[k + 1] != t[1],
    ensures
        replacement_keeps_out(t, p),
{
    assert forall|i: int| 0 <= i <= t.len() implies !p.is_prefix_of(#[trigger] t.skip(i)) by {
        if p.is_prefix_of(t.skip(i)) {
            assert(p[0] == t.skip(i)[0]);
            assert(p[1] == t.skip(i)[1]);
            assert(p[d] == t.skip(i)[d]);
        }
    }
    assert forall|k: int| 0 < k < t.len() && t.len() - k < p.len() implies !(
    #[trigger] t.skip(k)).is_prefix_of(p) by {
        if t.skip(k).is_prefix_of(p) {
            assert(t.skip(k)[0] == p[0]);
        }
    }
    assert forall|k: int| 0 < k < p.len() implies !(#[trigger] p.skip(k)).is_prefix_of(t) by {
        if p.skip(k).is_prefix_of(t) {
            assert(p.skip(k)[0] == t[0]);
            if k + 1 < p.len() {
                assert(p.skip(k)[1] == t[1]);
            }
        }
    }
}

/// The generated zsh script with the default completers of `CLIENT`, `VM`
/// and `TAG` values swapped for the dynamic ones.
pub open spec fn zsh_patched(generated: Seq<char>) -> Seq<char> {
    let s = replace_all(generated, ":CLIENT:_default"@, ":CLIENT:_tdc_complete_clients"@);
    let s = replace_all(s, ":VM:_default"@, ":VM:_tdc_complete_vms"@);
    replace_all(s, ":TAG:_default"@, ":TAG:_tdc_complete_snapshot_tags"@)
}

/// Whatever script the generator wrote, the patched part of it completes no
/// `CLIENT`, `VM` or `TAG` value with zsh's default completer, and the
/// functions of the dynamic completers follow it.
pub proof fn lemma_zsh_patch_drops_default_completers(generated: Seq<char>)
    ensures
        zsh_script_spec(generated) == zsh_patched(generated) + ZSH_DYNAMIC_COMPLETIONS@,
        !contains_seq(zsh_patched(generated), ":CLIENT:_default"@),
        !contains_seq(zsh_patched(generated), ":VM:_default"@),
        !contains_seq(zsh_patched(generated), ":TAG:_default"@),
{
    let pc = ":CLIENT:_default"@;
    let pv = ":VM:_default"@;
    let pt = ":TAG:_default"@;
    let tc = ":CLIENT:_tdc_complete_clients"@;
    let tv = ":VM:_tdc_complete_vms"@;
    let tt = ":TAG:_tdc_complete_snapshot_tags"@;
    reveal_strlit(":CLIENT:_default");
    reveal_strlit(":VM:_default");
    reveal_strlit(":TAG:_default");
    reveal_strlit(":CLIENT:_tdc_complete_clients");
    reveal_strlit(":VM:_tdc_complete_vms");
    reveal_strlit(":TAG:_tdc_complete_snapshot_tags");
    lemma_keeps_out_by_marks(tc, pc, 9);
    lemma_keeps_out_by_marks(tv, pc, 1);
    lemma_keeps_out_by_marks(tv, pv, 5);
    lemma_keeps_out_by_marks(tt, pc, 1);
    lemma_keeps_out_by_marks(tt, pv, 1);
    lemma_keeps_out_by_marks(tt, pt, 6);
    let s1 = replace_all(generated, pc, tc);
    let s2 = replace_all(s1, pv, tv);
    lemma_replace_all_keeps_out(generated, pc, tc, pc);
    lemma_replace_all_keeps_out(s1, pv, tv, pc);
    lemma_replace_all_keeps_out(s1, pv, tv, pv);
    lemma_replace_all_keeps_out(s2, pt, tt, pc);
    lemma_replace_all_keeps_out(s2, pt, tt, pv);
    lemma_replace_all_keeps_out(s2, pt, tt, pt);
}

/// The quiet VM listing that completion reads VM names from.
pub open spec fn vm_names_listing_command_spec() -> Seq<Seq<char>> {
    seq!["limactl"@, "list"@, "--quiet"@, "--tty=false"@]
}

pub fn vm_names_listing_command() -> (r: Vec<String>)
    ensures
        views(r@) == vm_names_listing_command_spec(),
{
    let r = vec![
        "limactl".to_owned(),
        "list".to_owned(),
        "--quiet".to_owned(),
        "--tty=false".to_owned(),
    ];
    assert(views(r@) =~= vm_names_listing_command_spec());
    r
}

/// The quiet snapshot listing that completion reads a VM's tags from.
pub open spec fn snapshot_tags_listing_command_spec(vm: Seq<char>) -> Seq<Seq<char>> {
    seq!["limactl"@, "snapshot"@, "list"@, vm, "--quiet"@, "--tty=false"@]
}

pub fn snapshot_tags_listing_command(vm: &str) -> (r: Vec<String>)
    ensures
        views(r@) == snapshot_tags_listing_command_spec(vm@),
{
    let r = vec![
        "limactl".to_owned(),
        "snapshot".to_owned(),
        "list".to_owned(),
        vm.to_owned(),
        "--quiet".to_owned(),
        "--tty=false".to_owned(),
    ];
    assert(views(r@) =~= snapshot_tags_listing_command_spec(vm@));
    r
}

} // verus!
