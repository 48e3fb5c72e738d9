//! Parsing of the messages that the Vulkan validation layers hand to the
//! debug-utils messenger: a message is split on `|` into sections; the
//! section with `[ ... ]` names the VUID and the objects involved, the
//! section with `(` carries the text, which may quote the specification
//! and link to it.
use vstd::prelude::*;
use crate::text::{
    chars_of, contains, digit, find_from, interleave_from, lemma_find_from_bounds, matches_at,
    replace_from, contains_exec, decimal, find, find_char_exec, push_all,
    push_decimal, remove_char, remove_char_exec, replace, replace_exec, rsplit_once_char,
    rsplit_once_char_exec, slice_of, split, split_exec, split_once, split_once_exec, string_of,
    trim_end, trim_end_exec, utf8_width_exec,
};

verus! {

/// One Vulkan object that a validation message refers to.
pub struct ContextObj {
    pub index: String,
    pub vk_type: String,
    pub handle: String,
}

/// A validation-layer error, taken apart.
pub struct ValidationError {
    pub vulkan_id: String,
    pub context_objects: Vec<ContextObj>,
    pub message: String,
    /// What "The Vulkan spec states", followed by a period; empty where the
    /// message quotes no specification text.
    pub spec_info: String,
    pub spec_link: String,
}

/// The character content of a [`ContextObj`].
pub struct ContextObjView {
    pub index: Seq<char>,
    pub vk_type: Seq<char>,
    pub handle: Seq<char>,
}

/// The character content of a [`ValidationError`].
pub struct ValidationErrorView {
    pub vulkan_id: Seq<char>,
    pub context_objects: Seq<ContextObjView>,
    pub message: Seq<char>,
    pub spec_info: Seq<char>,
    pub spec_link: Seq<char>,
}

impl View for ContextObj {
    type V = ContextObjView;

    open spec fn view(&self) -> ContextObjView {
        ContextObjView { index: self.index@, vk_type: self.vk_type@, handle: self.handle@ }
    }
}

impl View for ValidationError {
    type V = ValidationErrorView;

    open spec fn view(&self) -> ValidationErrorView {
        ValidationErrorView {
            vulkan_id: self.vulkan_id@,
            context_objects: self.context_objects@.map_values(|o: ContextObj| o@),
            message: self.message@,
            spec_info: self.spec_info@,
            spec_link: self.spec_link@,
        }
    }
}

// ------------------------------------------------------------------
// Specification of the parser
// ------------------------------------------------------------------

/// The error that carries a message that could not be taken apart: no
/// VUID, one blank object, the whole message, no specification text.
pub open spec fn simple_view(msg: Seq<char>) -> ValidationErrorView {
    ValidationErrorView {
        vulkan_id: Seq::empty(),
        context_objects: seq![
            ContextObjView {
                index: Seq::empty(),
                vk_type: Seq::empty(),
                handle: Seq::empty(),
            },
        ],
        message: msg,
        spec_info: Seq::empty(),
        spec_link: Seq::empty(),
    }
}

/// A section that names the VUID and the objects: it holds `[ ` and ` ]`.
pub open spec fn is_context_section(s: Seq<char>) -> bool {
    contains(s, "[ "@) && contains(s, " ]"@)
}

/// The first section at or after `k` that is a context section.
pub open spec fn first_context_from(secs: Seq<Seq<char>>, k: int) -> Option<int>
    decreases secs.len() - k,
{
    if k < 0 || k >= secs.len() {
        None
    } else if is_context_section(secs[k]) {
        Some(k)
    } else {
        first_context_from(secs, k + 1)
    }
}

/// The first section at or after `k` that holds `(`.
pub open spec fn first_paren_from(secs: Seq<Seq<char>>, k: int) -> Option<int>
    decreases secs.len() - k,
{
    if k < 0 || k >= secs.len() {
        None
    } else if contains(secs[k], seq!['(']) {
        Some(k)
    } else {
        first_paren_from(secs, k + 1)
    }
}

/// What follows the first `p` in `s`, or `default` where `p` does not occur.
pub open spec fn after_or(s: Seq<char>, p: Seq<char>, default: Seq<char>) -> Seq<char> {
    match split_once(s, p) {
        Some(pr) => pr.1,
        None => default,
    }
}

/// The object described by one piece `index: handle = H, type = T`.
pub open spec fn context_object_of(piece: Seq<char>) -> Option<ContextObjView> {
    match split_once(piece, seq![':']) {
        None => None,
        Some(pr) => match split_once(pr.1, seq![',']) {
            None => None,
            Some(hr) => Some(
                ContextObjView {
                    index: remove_char(pr.0, ' '),
                    vk_type: remove_char(
                        remove_char(after_or(hr.1, "= "@, "Unknown type"@), ' '),
                        ';',
                    ),
                    handle: remove_char(after_or(hr.0, "= "@, "Unknown handle"@), ' '),
                },
            ),
        },
    }
}

/// The objects described by the pieces, in order; pieces that describe
/// none are skipped.
pub open spec fn context_objects_of(pieces: Seq<Seq<char>>) -> Seq<ContextObjView>
    decreases pieces.len(),
{
    if pieces.len() == 0 {
        Seq::empty()
    } else {
        let prefix = context_objects_of(pieces.drop_last());
        match context_object_of(pieces.last()) {
            Some(o) => prefix.push(o),
            None => prefix,
        }
    }
}

/// The tag `|i|` that stands for the `i`-th object in a message.
pub open spec fn object_tag(i: nat) -> Seq<char> {
    seq!['|'] + decimal(i) + seq!['|']
}

/// `msg` with the handles of the first `n` objects replaced by their tags,
/// object by object: first `handle[]`, then `handle`.
pub open spec fn replace_handles(msg: Seq<char>, objs: Seq<ContextObjView>, n: int) -> Seq<char>
    decreases n,
{
    if n <= 0 || n > objs.len() {
        msg
    } else {
        let m = replace_handles(msg, objs, n - 1);
        let h = objs[n - 1].handle;
        let t = object_tag((n - 1) as nat);
        replace(replace(m, h + seq!['[', ']'], t), h, t)
    }
}

/// The VUID text of a context section: from two characters after the first
/// `[` up to the first `]`.
pub open spec fn vuid_text(context: Seq<char>) -> Seq<char> {
    context.subrange(find(context, seq!['[']).unwrap() + 2, find(context, seq![']']).unwrap())
}

/// The first `]` of a context section, where the object list begins.
pub open spec fn vuid_end(context: Seq<char>) -> int {
    find(context, seq![']']).unwrap()
}

/// The first `[` of a context section is followed by one single-byte
/// character before the first `]`: what the byte slicing of the VUID needs.
pub open spec fn vuid_brackets_ok(context: Seq<char>) -> bool {
    match (find(context, seq!['[']), find(context, seq![']'])) {
        (Some(f), Some(t)) => f + 2 <= t && (context[f + 1] as u32) < 0x80,
        _ => false,
    }
}

/// A message that can be taken apart without a slicing fault.
pub open spec fn message_well_formed(input: Seq<char>) -> bool {
    let sections = split(input, seq!['|']);
    match first_context_from(sections, 0) {
        None => true,
        Some(ci) => vuid_brackets_ok(sections[ci]),
    }
}

/// The VUID with its `VUID-` prefix and its last `-` suffix removed.
pub open spec fn short_vuid(raw: Seq<char>) -> Seq<char> {
    let tail = after_or(raw, "VUID-"@, raw);
    match rsplit_once_char(tail, '-') {
        Some(pr) => pr.0,
        None => tail,
    }
}

/// The error that a validation message describes.
pub open spec fn parse_view(input: Seq<char>) -> ValidationErrorView {
    let sections = split(input, seq!['|']);
    match first_context_from(sections, 0) {
        None => simple_view(input),
        Some(ci) => {
            let context = sections[ci];
            let objs = context_objects_of(
                split(context.subrange(vuid_end(context), context.len() as int), "Object"@),
            );
            match first_paren_from(sections, 0) {
                None => simple_view(input),
                Some(mi) => {
                    let msg = replace_handles(sections[mi], objs, objs.len() as int);
                    let (message, info) = match split_once(msg, "The Vulkan spec states: "@) {
                        Some(pr) => pr,
                        None => (msg, Seq::empty()),
                    };
                    let (info, link) = match split_once(info, "(https://"@) {
                        Some(pr) => pr,
                        None => (info, Seq::empty()),
                    };
                    ValidationErrorView {
                        vulkan_id: short_vuid(vuid_text(context)),
                        context_objects: objs,
                        message: message,
                        spec_info: if split_once(msg, "The Vulkan spec states: "@) is Some {
                            trim_end(info).push('.')
                        } else {
                            Seq::empty()
                        },
                        spec_link: if link.len() == 0 {
                            link
                        } else {
                            "(https://"@ + link
                        },
                    }
                },
            }
        },
    }
}



// ------------------------------------------------------------------
// Properties of the parser
// ------------------------------------------------------------------

/// The specification text of a parsed message is empty (no specification
/// text is quoted, or the message was kept whole) or ends with a period.
pub proof fn law_spec_info_ends_with_period(input: Seq<char>)
    ensures
        ({
            let info = parse_view(input).spec_info;
            info.len() == 0 || info.last() == '.'
        }),
{
}

/// The link of a parsed message is empty or starts with `(https://`.
pub proof fn law_spec_link_is_a_link(input: Seq<char>)
    ensures
        ({
            let link = parse_view(input).spec_link;
            link.len() == 0 || (link.len() >= "(https://"@.len() && link.subrange(
                0,
                "(https://"@.len() as int,
            ) == "(https://"@)
        }),
{
    let link = parse_view(input).spec_link;
    if link.len() != 0 {
        assert(link.subrange(0, "(https://"@.len() as int) =~= "(https://"@);
    }
}

/// A message with no `[ ... ]` section, or with no section holding `(`, is
/// kept whole, with one blank object and no VUID.
pub proof fn law_unstructured_message_kept_whole(input: Seq<char>)
    requires
        first_context_from(split(input, seq!['|']), 0) is None || first_paren_from(
            split(input, seq!['|']),
            0,
        ) is None,
    ensures
        parse_view(input) == simple_view(input),
{
}

// ------------------------------------------------------------------
// Handles are replaced everywhere
// ------------------------------------------------------------------

/// `q` occurs somewhere in `s`.
pub open spec fn occurs(s: Seq<char>, q: Seq<char>) -> bool {
    exists|j: int| matches_at(s, q, j)
}

/// A decimal digit character.
pub open spec fn is_digit_char(c: char) -> bool {
    0x30 <= (c as u32) <= 0x39
}

/// Text that can stand for an object handle and cannot show up inside the
/// tags: not empty, no `|`, and not made of decimal digits alone.
pub open spec fn handle_text(q: Seq<char>) -> bool {
    &&& q.len() > 0
    &&& forall|i: int| 0 <= i < q.len() ==> q[i] != '|'
    &&& exists|i: int| 0 <= i < q.len() && !is_digit_char(q[i])
}

/// Text shaped like a tag: `|`, decimal digits, `|`.
pub open spec fn tag_shaped(t: Seq<char>) -> bool {
    &&& t.len() >= 2
    &&& t[0] == '|'
    &&& t[t.len() - 1] == '|'
    &&& forall|i: int| 0 < i < t.len() - 1 ==> is_digit_char(#[trigger] t[i])
}

proof fn lemma_contains_iff_occurs(s: Seq<char>, q: Seq<char>)
    ensures
        contains(s, q) <==> occurs(s, q),
{
    lemma_find_from_bounds(s, q, 0);
    if contains(s, q) {
        let i = find(s, q).unwrap();
        assert(matches_at(s, q, i));
    }
}

proof fn lemma_digit_is_digit(d: nat)
    ensures
        is_digit_char(digit(d)),
{
}

proof fn lemma_decimal_digits(n: nat)
    ensures
        forall|i: int| 0 <= i < decimal(n).len() ==> is_digit_char(#[trigger] decimal(n)[i]),
        decimal(n).len() >= 1,
    decreases n,
{
    if n < 10 {
        lemma_digit_is_digit(n);
    } else {
        lemma_decimal_digits(n / 10);
        lemma_digit_is_digit(n % 10);
    }
}

proof fn lemma_object_tag_shaped(i: nat)
    ensures
        tag_shaped(object_tag(i)),
{
    lemma_decimal_digits(i);
    let t = object_tag(i);
    let d = decimal(i);
    assert forall|k: int| 0 < k < t.len() - 1 implies is_digit_char(#[trigger] t[k]) by {
        assert(t[k] == d[k - 1]);
    }
}

/// An occurrence inside a part of a text is an occurrence in the text.
proof fn lemma_sub_occurs(s: Seq<char>, q: Seq<char>, a: int, b: int, c: int, d: int)
    requires
        0 <= a <= c <= d <= b <= s.len(),
        !occurs(s.subrange(a, b), q),
    ensures
        !occurs(s.subrange(c, d), q),
{
    if occurs(s.subrange(c, d), q) {
        let j = choose|j: int| matches_at(s.subrange(c, d), q, j);
        assert(s.subrange(a, b).subrange(j + c - a, j + c - a + q.len()) =~= s.subrange(c, d).subrange(
            j,
            j + q.len(),
        ));
        assert(matches_at(s.subrange(a, b), q, j + c - a));
    }
}

/// Handle text cannot straddle or sit inside a tag: an occurrence in
/// `a + t + b` lies within `a` or within `b`.
proof fn lemma_no_occurrence_across_tag(a: Seq<char>, t: Seq<char>, b: Seq<char>, q: Seq<char>)
    requires
        handle_text(q),
        tag_shaped(t),
        !occurs(a, q),
        !occurs(b, q),
    ensures
        !occurs(a + t + b, q),
{
    let w = a + t + b;
    let la = a.len() as int;
    let lt = t.len() as int;
    if occurs(w, q) {
        let j = choose|j: int| matches_at(w, q, j);
        let n = q.len() as int;
        assert(w.subrange(j, j + n) == q);
        assert forall|m: int| 0 <= m < n implies w[j + m] == q[m] by {
            assert(w.subrange(j, j + n)[m] == w[j + m]);
        }
        if j + n <= la {
            assert(a.subrange(j, j + n) =~= w.subrange(j, j + n));
            assert(matches_at(a, q, j));
        } else if j >= la + lt {
            assert(b.subrange(j - la - lt, j - la - lt + n) =~= w.subrange(j, j + n));
            assert(matches_at(b, q, j - la - lt));
        } else if j <= la {
            assert(w[la] == t[0]);
            assert(q[la - j] == '|');
        } else if j + n >= la + lt {
            assert(w[la + lt - 1] == t[lt - 1]);
            assert(q[la + lt - 1 - j] == '|');
        } else {
            let m = choose|m: int| 0 <= m < n && !is_digit_char(q[m]);
            assert(w[j + m] == t[j + m - la]);
            assert(is_digit_char(t[j + m - la]));
        }
    }
}

proof fn lemma_empty_has_no_handle(q: Seq<char>)
    requires
        q.len() > 0,
    ensures
        !occurs(Seq::<char>::empty(), q),
{
}

/// Replacing a non-empty pattern by a tag creates no new handle text.
proof fn lemma_replace_from_adds_no_handle(
    s: Seq<char>,
    p: Seq<char>,
    r: Seq<char>,
    start: int,
    q: Seq<char>,
)
    requires
        p.len() > 0,
        tag_shaped(r),
        handle_text(q),
        0 <= start <= s.len(),
        !occurs(s.subrange(start, s.len() as int), q),
    ensures
        !occurs(replace_from(s, p, r, start), q),
    decreases s.len() - start,
{
    lemma_find_from_bounds(s, p, start);
    match find_from(s, p, start) {
        None => {},
        Some(i) => {
            let len = s.len() as int;
            lemma_sub_occurs(s, q, start, len, start, i);
            lemma_sub_occurs(s, q, start, len, i + p.len(), len);
            lemma_replace_from_adds_no_handle(s, p, r, i + p.len(), q);
            lemma_no_occurrence_across_tag(
                s.subrange(start, i),
                r,
                replace_from(s, p, r, i + p.len()),
                q,
            );
        },
    }
}

/// Replacing a handle by a tag leaves no occurrence of the handle.
proof fn lemma_replace_from_removes_handle(s: Seq<char>, q: Seq<char>, r: Seq<char>, start: int)
    requires
        tag_shaped(r),
        handle_text(q),
        0 <= start <= s.len(),
    ensures
        !occurs(replace_from(s, q, r, start), q),
    decreases s.len() - start,
{
    lemma_find_from_bounds(s, q, start);
    let len = s.len() as int;
    match find_from(s, q, start) {
        None => {
            if occurs(s.subrange(start, len), q) {
                let j = choose|j: int| matches_at(s.subrange(start, len), q, j);
                assert(s.subrange(start + j, start + j + q.len()) =~= s.subrange(start, len).subrange(
                    j,
                    j + q.len(),
                ));
                assert(matches_at(s, q, start + j));
            }
        },
        Some(i) => {
            if occurs(s.subrange(start, i), q) {
                let j = choose|j: int| matches_at(s.subrange(start, i), q, j);
                assert(s.subrange(start + j, start + j + q.len()) =~= s.subrange(start, i).subrange(
                    j,
                    j + q.len(),
                ));
                assert(matches_at(s, q, start + j));
            }
            lemma_replace_from_removes_handle(s, q, r, i + q.len());
            lemma_no_occurrence_across_tag(
                s.subrange(start, i),
                r,
                replace_from(s, q, r, i + q.len()),
                q,
            );
        },
    }
}

/// What interleaving a tag around the characters of `s[k..]` gives: the
/// tag, then a rest that holds no handle text where `s[k..]` holds none.
proof fn lemma_interleave_adds_no_handle(s: Seq<char>, r: Seq<char>, k: int, q: Seq<char>)
    requires
        tag_shaped(r),
        handle_text(q),
        0 <= k <= s.len(),
        !occurs(s.subrange(k, s.len() as int), q),
    ensures
        !occurs(interleave_from(s, r, k), q),
        k < s.len() ==> interleave_from(s, r, k) == r + (seq![s[k]] + interleave_from(s, r, k + 1)),
        k < s.len() ==> !occurs(seq![s[k]] + interleave_from(s, r, k + 1), q),
    decreases s.len() - k,
{
    let len = s.len() as int;
    if k >= len {
        lemma_empty_has_no_handle(q);
        assert(Seq::<char>::empty() + r + Seq::<char>::empty() =~= r);
        lemma_no_occurrence_across_tag(Seq::<char>::empty(), r, Seq::<char>::empty(), q);
    } else {
        lemma_sub_occurs(s, q, k, len, k + 1, len);
        lemma_interleave_adds_no_handle(s, r, k + 1, q);
        let c = seq![s[k]];
        lemma_sub_occurs(s, q, k, len, k, k + 1);
        assert(s.subrange(k, k + 1) =~= c);
        let rest = interleave_from(s, r, k + 1);
        assert(r + c + rest =~= r + (c + rest));
        if k + 1 < len {
            let tail = seq![s[k + 1]] + interleave_from(s, r, k + 2);
            assert(rest == r + tail);
            lemma_no_occurrence_across_tag(c, r, tail, q);
            assert(c + r + tail =~= c + rest);
        } else {
            assert(rest == r);
            lemma_empty_has_no_handle(q);
            lemma_no_occurrence_across_tag(c, r, Seq::<char>::empty(), q);
            assert(c + r + Seq::<char>::empty() =~= c + rest);
        }
        lemma_empty_has_no_handle(q);
        lemma_no_occurrence_across_tag(Seq::<char>::empty(), r, c + rest, q);
        assert(Seq::<char>::empty() + r + (c + rest) =~= r + (c + rest));
    }
}

/// Replacing any pattern by a tag creates no new handle text.
proof fn lemma_replace_adds_no_handle(s: Seq<char>, p: Seq<char>, r: Seq<char>, q: Seq<char>)
    requires
        tag_shaped(r),
        handle_text(q),
        !occurs(s, q),
    ensures
        !occurs(replace(s, p, r), q),
{
    assert(s.subrange(0, s.len() as int) =~= s);
    if p.len() == 0 {
        lemma_interleave_adds_no_handle(s, r, 0, q);
    } else {
        lemma_replace_from_adds_no_handle(s, p, r, 0, q);
    }
}

/// After the handles of the first `n` objects are replaced, none of those
/// handles that is handle text occurs any more.
proof fn lemma_replace_handles_clears(msg: Seq<char>, objs: Seq<ContextObjView>, n: int, k: int)
    requires
        0 <= k < n <= objs.len(),
        handle_text(objs[k].handle),
    ensures
        !occurs(replace_handles(msg, objs, n), objs[k].handle),
    decreases n,
{
    let m = replace_handles(msg, objs, n - 1);
    let h = objs[n - 1].handle;
    let t = object_tag((n - 1) as nat);
    let q = objs[k].handle;
    lemma_object_tag_shaped((n - 1) as nat);
    if k == n - 1 {
        let m1 = replace(m, h + seq!['[', ']'], t);
        lemma_replace_from_removes_handle(m1, h, t, 0);
    } else {
        lemma_replace_handles_clears(msg, objs, n - 1, k);
        lemma_replace_adds_no_handle(m, h + seq!['[', ']'], t, q);
        lemma_replace_adds_no_handle(replace(m, h + seq!['[', ']'], t), h, t, q);
    }
}

/// Every object handle is replaced wherever it occurs: once a message is
/// taken apart, its text holds no occurrence of the handle of any object it
/// names (a handle that is not empty, holds no `|` and is not all digits,
/// so that it cannot be part of a tag).
pub proof fn law_handles_are_replaced(input: Seq<char>, k: int)
    requires
        0 <= k < parse_view(input).context_objects.len(),
        handle_text(parse_view(input).context_objects[k].handle),
    ensures
        !contains(parse_view(input).message, parse_view(input).context_objects[k].handle),
{
    let q = parse_view(input).context_objects[k].handle;
    let sections = split(input, seq!['|']);
    match first_context_from(sections, 0) {
        None => {},
        Some(ci) => {
            let context = sections[ci];
            let objs = context_objects_of(
                split(context.subrange(vuid_end(context), context.len() as int), "Object"@),
            );
            match first_paren_from(sections, 0) {
                None => {},
                Some(mi) => {
                    let msg = replace_handles(sections[mi], objs, objs.len() as int);
                    lemma_replace_handles_clears(sections[mi], objs, objs.len() as int, k);
                    lemma_find_from_bounds(msg, "The Vulkan spec states: "@, 0);
                    match split_once(msg, "The Vulkan spec states: "@) {
                        Some(pr) => {
                            let i = find(msg, "The Vulkan spec states: "@).unwrap();
                            assert(msg.subrange(0, msg.len() as int) =~= msg);
                            lemma_sub_occurs(msg, q, 0, msg.len() as int, 0, i);
                        },
                        None => {},
                    }
                },
            }
        },
    }
    lemma_contains_iff_occurs(parse_view(input).message, q);
}

// ------------------------------------------------------------------
// The parser
// ------------------------------------------------------------------

/// An object still held as characters.
struct ObjChars {
    index: Vec<char>,
    vk_type: Vec<char>,
    handle: Vec<char>,
}

impl View for ObjChars {
    type V = ContextObjView;

    closed spec fn view(&self) -> ContextObjView {
        ContextObjView { index: self.index@, vk_type: self.vk_type@, handle: self.handle@ }
    }
}

impl ValidationError {
    /// The error that carries `msg` whole, for a message that could not be
    /// taken apart.
    pub fn simple_msg(msg: &str) -> (e: Self)
        ensures
            e@ == simple_view(msg@),
    {
        let e = ValidationError {
            vulkan_id: String::new(),
            context_objects: vec![
                ContextObj { index: String::new(), vk_type: String::new(), handle: String::new() },
            ],
            message: msg.to_owned(),
            spec_info: String::new(),
            spec_link: String::new(),
        };
        proof {
            assert(e@.context_objects =~= simple_view(msg@).context_objects);
        }
        e
    }
}

/// A general (non-validation) message is shown as it is.
pub fn parse_vk_general_message(input: &str) -> (out: &str)
    ensures
        out@ == input@,
{
    input
}

/// What follows the first `p` in `s`, or `default`.
fn after_or_exec(s: &Vec<char>, p: &Vec<char>, default: Vec<char>) -> (r: Vec<char>)
    ensures
        r@ == after_or(s@, p@, default@),
{
    match split_once_exec(s, p) {
        Some((_, b)) => b,
        None => default,
    }
}

/// The object described by one piece of the object list.
fn context_object_exec(piece: &Vec<char>) -> (r: Option<ObjChars>)
    ensures
        match r {
            Some(o) => context_object_of(piece@) == Some(o@),
            None => context_object_of(piece@) is None,
        },
{
    let colon = vec![':'];
    let comma = vec![','];
    proof {
        assert(colon@ =~= seq![':']);
        assert(comma@ =~= seq![',']);
    }
    match split_once_exec(piece, &colon) {
        None => None,
        Some((idx, rest)) => match split_once_exec(&rest, &comma) {
            None => None,
            Some((h, ty)) => {
                let eq_sep = chars_of("= ");
                let handle_raw = after_or_exec(&h, &eq_sep, chars_of("Unknown handle"));
                let type_raw = after_or_exec(&ty, &eq_sep, chars_of("Unknown type"));
                let type_no_space = remove_char_exec(&type_raw, ' ');
                Some(
                    ObjChars {
                        index: remove_char_exec(&idx, ' '),
                        vk_type: remove_char_exec(&type_no_space, ';'),
                        handle: remove_char_exec(&handle_raw, ' '),
                    },
                )
            },
        },
    }
}

/// The objects that the pieces describe, in order.
fn context_objects_exec(pieces: &Vec<Vec<char>>, Ghost(ps): Ghost<Seq<Seq<char>>>) -> (objs: Vec<
    ObjChars,
>)
    requires
        pieces.len() == ps.len(),
        forall|k: int| 0 <= k < ps.len() ==> #[trigger] pieces[k]@ == ps[k],
    ensures
        objs@.map_values(|o: ObjChars| o@) == context_objects_of(ps),
{
    let mut objs: Vec<ObjChars> = Vec::new();
    let mut k: usize = 0;
    while k < pieces.len()
        invariant
            k <= pieces.len(),
            pieces.len() == ps.len(),
            forall|j: int| 0 <= j < ps.len() ==> #[trigger] pieces[j]@ == ps[j],
            objs@.map_values(|o: ObjChars| o@) == context_objects_of(ps.take(k as int)),
        decreases pieces.len() - k,
    {
        proof {
            assert(ps.take(k + 1).drop_last() =~= ps.take(k as int));
            assert(ps.take(k + 1).last() == ps[k as int]);
        }
        let ghost before = objs@.map_values(|o: ObjChars| o@);
        match context_object_exec(&pieces[k]) {
            Some(o) => {
                objs.push(o);
                proof {
                    assert(objs@.map_values(|o: ObjChars| o@) =~= before.push(o@));
                }
            },
            None => {},
        }
        k += 1;
    }
    proof {
        assert(ps.take(ps.len() as int) =~= ps);
    }
    objs
}

/// Appends the tag `|i|` to `out`.
fn push_object_tag(out: &mut Vec<char>, i: usize)
    ensures
        final(out)@ == old(out)@ + object_tag(i as nat),
{
    out.push('|');
    push_decimal(out, i);
    out.push('|');
    proof {
        assert(final(out)@ =~= old(out)@ + object_tag(i as nat));
    }
}

/// `msg` with the handles of all objects replaced by their tags.
fn replace_handles_exec(msg: &Vec<char>, objs: &Vec<ObjChars>) -> (out: Vec<char>)
    ensures
        out@ == replace_handles(msg@, objs@.map_values(|o: ObjChars| o@), objs.len() as int),
{
    let ghost os = objs@.map_values(|o: ObjChars| o@);
    let mut out: Vec<char> = Vec::new();
    push_all(&mut out, msg);
    proof {
        assert(out@ =~= msg@);
    }
    let mut i: usize = 0;
    while i < objs.len()
        invariant
            i <= objs.len(),
            os == objs@.map_values(|o: ObjChars| o@),
            out@ == replace_handles(msg@, os, i as int),
        decreases objs.len() - i,
    {
        let mut tag: Vec<char> = Vec::new();
        push_object_tag(&mut tag, i);
        let handle = &objs[i].handle;
        let mut handle_brackets: Vec<char> = Vec::new();
        push_all(&mut handle_brackets, handle);
        handle_brackets.push('[');
        handle_brackets.push(']');
        proof {
            assert(os[i as int] == objs[i as int]@);
            assert(tag@ =~= object_tag(i as nat));
            assert(handle_brackets@ =~= os[i as int].handle + seq!['[', ']']);
        }
        let first = replace_exec(&out, &handle_brackets, &tag);
        out = replace_exec(&first, handle, &tag);
        i += 1;
    }
    out
}

/// The VUID of a context section and the byte offset of its closing `]`
/// (the length of the UTF-8 encoding of what comes before it).
pub fn find_vuid(context_section: &str) -> (r: (String, usize))
    requires
        vuid_brackets_ok(context_section@),
    ensures
        r.0@ == vuid_text(context_section@),
        r.1 == vstd::utf8::encode_utf8(context_section@.take(vuid_end(context_section@))).len(),
{
    let chars = chars_of(context_section);
    let (vuid, end) = find_vuid_chars(&chars);
    let total = context_section.as_bytes().len();
    let ghost text = context_section@;
    proof {
        crate::text::lemma_find_from_bounds(text, seq![']'], 0);
    }
    let mut byte_offset: usize = 0;
    let mut k: usize = 0;
    while k < end
        invariant
            k <= end,
            end == vuid_end(text),
            end <= chars.len(),
            chars@ == text,
            text == context_section@,
            total == vstd::utf8::encode_utf8(text).len(),
            byte_offset == vstd::utf8::encode_utf8(text.take(k as int)).len(),
        decreases end - k,
    {
        proof {
            crate::text::lemma_encode_utf8_prefix_step(text, k as int);
            crate::text::lemma_encode_utf8_prefix_len(text, k + 1);
        }
        byte_offset = byte_offset + utf8_width_exec(chars[k]);
        k += 1;
    }
    (string_of(&vuid), byte_offset)
}

/// The VUID of a context section, as characters, and the position of its
/// closing `]`.
fn find_vuid_chars(context_section: &Vec<char>) -> (r: (Vec<char>, usize))
    requires
        vuid_brackets_ok(context_section@),
    ensures
        r.0@ == vuid_text(context_section@),
        r.1 == vuid_end(context_section@),
{
    let from = find_char_exec(context_section, '[').unwrap();
    let to = find_char_exec(context_section, ']').unwrap();
    proof {
        crate::text::lemma_find_from_bounds(context_section@, seq![']'], 0);
    }
    (slice_of(context_section, from + 2, to), to)
}

/// The VUID without its `VUID-` prefix and its last `-` suffix.
fn short_vuid_exec(raw: &Vec<char>) -> (r: Vec<char>)
    ensures
        r@ == short_vuid(raw@),
{
    let prefix = chars_of("VUID-");
    let tail = match split_once_exec(raw, &prefix) {
        Some((_, b)) => b,
        None => slice_of(raw, 0, raw.len()),
    };
    proof {
        assert(raw@.subrange(0, raw@.len() as int) =~= raw@);
    }
    match rsplit_once_char_exec(&tail, '-') {
        Some((a, _)) => a,
        None => tail,
    }
}

/// Whether a message can be taken apart without a slicing fault.
pub fn validation_message_well_formed(input: &str) -> (b: bool)
    ensures
        b == message_well_formed(input@),
{
    let s = chars_of(input);
    let bar = vec!['|'];
    proof {
        assert(bar@ =~= seq!['|']);
        reveal_strlit("|");
    }
    let sections = split_exec(&s, &bar);
    match first_context_exec(&sections, Ghost(split(s@, seq!['|']))) {
        None => true,
        Some(ci) => brackets_ok_exec(&sections[ci]),
    }
}

/// Whether the first `[` is followed by one single-byte character before
/// the first `]`.
fn brackets_ok_exec(context: &Vec<char>) -> (b: bool)
    ensures
        b == vuid_brackets_ok(context@),
{
    match (find_char_exec(context, '['), find_char_exec(context, ']')) {
        (Some(f), Some(t)) => {
            proof {
                crate::text::lemma_find_from_bounds(context@, seq!['['], 0);
                crate::text::lemma_find_from_bounds(context@, seq![']'], 0);
            }
            f < t && t - f >= 2 && (context[f + 1] as u32) < 0x80
        },
        _ => false,
    }
}

/// The first context section.
fn first_context_exec(sections: &Vec<Vec<char>>, Ghost(ss): Ghost<Seq<Seq<char>>>) -> (r: Option<
    usize,
>)
    requires
        sections.len() == ss.len(),
        forall|k: int| 0 <= k < ss.len() ==> #[trigger] sections[k]@ == ss[k],
    ensures
        match r {
            Some(i) => first_context_from(ss, 0) == Some(i as int) && i < ss.len(),
            None => first_context_from(ss, 0) is None,
        },
{
    let open = chars_of("[ ");
    let close = chars_of(" ]");
    let mut k: usize = 0;
    while k < sections.len()
        invariant
            k <= sections.len(),
            sections.len() == ss.len(),
            forall|j: int| 0 <= j < ss.len() ==> #[trigger] sections[j]@ == ss[j],
            open@ == "[ "@,
            close@ == " ]"@,
            first_context_from(ss, k as int) == first_context_from(ss, 0),
        decreases sections.len() - k,
    {
        proof {
            assert(sections[k as int]@ == ss[k as int]);
        }
        if contains_exec(&sections[k], &open) && contains_exec(&sections[k], &close) {
            return Some(k);
        }
        k += 1;
    }
    None
}

/// The first section that holds `(`.
fn first_paren_exec(sections: &Vec<Vec<char>>, Ghost(ss): Ghost<Seq<Seq<char>>>) -> (r: Option<
    usize,
>)
    requires
        sections.len() == ss.len(),
        forall|k: int| 0 <= k < ss.len() ==> #[trigger] sections[k]@ == ss[k],
    ensures
        match r {
            Some(i) => first_paren_from(ss, 0) == Some(i as int) && i < ss.len(),
            None => first_paren_from(ss, 0) is None,
        },
{
    let paren = vec!['('];
    proof {
        assert(paren@ =~= seq!['(']);
    }
    let mut k: usize = 0;
    while k < sections.len()
        invariant
            k <= sections.len(),
            sections.len() == ss.len(),
            forall|j: int| 0 <= j < ss.len() ==> #[trigger] sections[j]@ == ss[j],
            paren@ == seq!['('],
            first_paren_from(ss, k as int) == first_paren_from(ss, 0),
        decreases sections.len() - k,
    {
        proof {
            assert(sections[k as int]@ == ss[k as int]);
        }
        if contains_exec(&sections[k], &paren) {
            return Some(k);
        }
        k += 1;
    }
    None
}

/// Turns objects held as characters into [`ContextObj`]s.
fn objects_to_strings(objs: &Vec<ObjChars>) -> (out: Vec<ContextObj>)
    ensures
        out@.map_values(|o: ContextObj| o@) == objs@.map_values(|o: ObjChars| o@),
{
    let mut out: Vec<ContextObj> = Vec::new();
    let mut k: usize = 0;
    while k < objs.len()
        invariant
            k <= objs.len(),
            out@.map_values(|o: ContextObj| o@) == objs@.map_values(|o: ObjChars| o@).take(
                k as int,
            ),
        decreases objs.len() - k,
    {
        let o = ContextObj {
            index: string_of(&objs[k].index),
            vk_type: string_of(&objs[k].vk_type),
            handle: string_of(&objs[k].handle),
        };
        let ghost before = out@.map_values(|o: ContextObj| o@);
        out.push(o);
        proof {
            assert(out@.map_values(|o: ContextObj| o@) =~= before.push(objs[k as int]@));
            assert(objs@.map_values(|o: ObjChars| o@).take(k + 1) =~= objs@.map_values(
                |o: ObjChars| o@,
            ).take(k as int).push(objs[k as int]@));
        }
        k += 1;
    }
    proof {
        assert(objs@.map_values(|o: ObjChars| o@).take(objs.len() as int) =~= objs@.map_values(
            |o: ObjChars| o@,
        ));
    }
    out
}

/// Takes a validation-layer error message apart: its VUID, the objects it
/// names, its text with each object handle replaced by `|i|`, the
/// specification text it quotes (followed by a period) and the link to it.
/// A message without a `[ ... ]` section or without a `(` section is kept
/// whole (see [`ValidationError::simple_msg`]).
pub fn parse_vk_validation_error_message(input: &str) -> (e: ValidationError)
    requires
        message_well_formed(input@),
    ensures
        e@ == parse_view(input@),
{
    let s = chars_of(input);
    let bar = vec!['|'];
    proof {
        assert(bar@ =~= seq!['|']);
    }
    let sections = split_exec(&s, &bar);
    let ghost ss = split(s@, seq!['|']);
    let ci = match first_context_exec(&sections, Ghost(ss)) {
        None => {
            return ValidationError::simple_msg(input);
        },
        Some(ci) => ci,
    };
    let context = &sections[ci];
    proof {
        assert(context@ == ss[ci as int]);
    }
    let (raw_vuid, end_index) = find_vuid_chars(context);
    proof {
        crate::text::lemma_find_from_bounds(context@, seq![']'], 0);
    }
    let rest = slice_of(context, end_index, context.len());
    let object_word = chars_of("Object");
    proof {
        reveal_strlit("Object");
    }
    let pieces = split_exec(&rest, &object_word);
    let objs = context_objects_exec(&pieces, Ghost(split(rest@, "Object"@)));
    let vulkan_id = short_vuid_exec(&raw_vuid);
    let mi = match first_paren_exec(&sections, Ghost(ss)) {
        None => {
            return ValidationError::simple_msg(input);
        },
        Some(mi) => mi,
    };
    proof {
        assert(sections[mi as int]@ == ss[mi as int]);
    }
    let msg = replace_handles_exec(&sections[mi], &objs);
    let states = chars_of("The Vulkan spec states: ");
    let (message, info, has_spec_text) = match split_once_exec(&msg, &states) {
        Some((a, b)) => (a, b, true),
        None => (msg, Vec::new(), false),
    };
    let link_start = chars_of("(https://");
    let (info, link) = match split_once_exec(&info, &link_start) {
        Some((a, b)) => (a, b),
        None => (info, Vec::new()),
    };
    let spec_info = if has_spec_text {
        let mut text = trim_end_exec(&info);
        text.push('.');
        text
    } else {
        Vec::new()
    };
    let spec_link = if link.len() == 0 {
        link
    } else {
        let mut full = chars_of("(https://");
        push_all(&mut full, &link);
        full
    };
    let e = ValidationError {
        vulkan_id: string_of(&vulkan_id),
        context_objects: objects_to_strings(&objs),
        message: string_of(&message),
        spec_info: string_of(&spec_info),
        spec_link: string_of(&spec_link),
    };
    proof {
        assert(e@ == parse_view(input@));
    }
    e
}

} // verus!
