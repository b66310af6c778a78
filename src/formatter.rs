//! The message formatter: placeholder substitution (`{name}`, `{0}`, `{}`,
//! `{?}`, with `{{` and `}}` as escapes) and plural forms chosen by a count
//! (`{0} none | {1, 2} few | {3..9} some | {10..} many | other`).
use vstd::prelude::*;

use crate::context::Context;
use crate::error::Error;
use crate::locale::Locale;
use crate::text::parse_i64;
use crate::text::parse_i64_in;
use crate::text::IntErrorKind;
use crate::text::chars_of;
use crate::text::decimal;
use crate::text::digit_char;
use crate::text::digits;
use crate::text::parse_usize;
use crate::text::parse_usize_in;
use crate::text::push_decimal;
use crate::text::split_from;
use crate::text::trim;
use crate::text::trim_range;
use vstd::string::*;

verus! {

// ---------------------------------------------------------------------------
// Placeholder substitution
// ---------------------------------------------------------------------------

/// `Ok(p + s)` for `Ok(s)`; an error stays as it is.
pub open spec fn prepend(p: Seq<char>, r: Result<Seq<char>, Seq<char>>) -> Result<
    Seq<char>,
    Seq<char>,
> {
    match r {
        Ok(s) => Ok(p + s),
        Err(e) => Err(e),
    }
}

/// Whether a result of the library agrees with a result of the model: the
/// same text, or a formatting error with the same detail.
pub open spec fn agrees(r: Result<String, Error>, m: Result<Seq<char>, Seq<char>>) -> bool {
    match r {
        Ok(s) => m == Ok::<Seq<char>, Seq<char>>(s@),
        Err(e) => e is FormattingError && m == Err::<Seq<char>, Seq<char>>(
            e->FormattingError_0@,
        ),
    }
}

/// The first `{` or `}` of `t` at or after `i`.
pub open spec fn next_brace(t: Seq<char>, i: int) -> Option<int>
    decreases t.len() - i,
{
    if i < 0 || i >= t.len() {
        None
    } else if t[i] == '{' || t[i] == '}' {
        Some(i)
    } else {
        next_brace(t, i + 1)
    }
}

/// The first `c` of `t` at or after `i`.
pub open spec fn next_char(t: Seq<char>, c: char, i: int) -> Option<int>
    decreases t.len() - i,
{
    if i < 0 || i >= t.len() {
        None
    } else if t[i] == c {
        Some(i)
    } else {
        next_char(t, c, i + 1)
    }
}

/// The first value, from index `i` on, whose name is `name`.
pub open spec fn find_name(names: Seq<Seq<char>>, name: Seq<char>, i: int) -> Option<int>
    decreases names.len() - i,
{
    if i < 0 || i >= names.len() {
        None
    } else if names[i] == name {
        Some(i)
    } else {
        find_name(names, name, i + 1)
    }
}

pub open spec fn terminated_text() -> Seq<char> {
    "invalid format string: expected `'}'` but string was terminated."@
}

pub open spec fn found_text(c: char) -> Seq<char> {
    "invalid format string: expected `'}'`, found `'"@ + seq![c] + "'`."@
}

pub open spec fn indexed_text(i: int, n: int) -> Seq<char> {
    "invalid reference to indexed value `'"@ + decimal(i) + "'` (there is "@ + decimal(n)
        + " value)."@
}

pub open spec fn positional_text(i: int, n: int) -> Seq<char> {
    "invalid reference to positional value `'"@ + decimal(i) + "'` (there is "@ + decimal(n)
        + " value)."@
}

pub open spec fn count_text() -> Seq<char> {
    "invalid reference to count ( {?} ) value."@
}

pub open spec fn unknown_text(name: Seq<char>) -> Seq<char> {
    "cannot find value `'"@ + name + "'` in this context."@
}

/// The value at position `i`, if there is one.
pub open spec fn value_at(ctx: Context, i: int, next: nat) -> Result<(Seq<char>, nat), Seq<char>> {
    if 0 <= i < ctx.values@.len() {
        Ok((ctx.texts()[i], next))
    } else {
        Err(positional_text(i, ctx.values@.len() as int))
    }
}

/// What the placeholder with content `raw` stands for, and the index that
/// the next `{}` takes.  `{}` takes the next index; otherwise the trimmed
/// content is a position, else the name of a value, else `?` for the count.
pub open spec fn resolve(raw: Seq<char>, next: nat, ctx: Context) -> Result<(Seq<char>, nat), Seq<char>> {
    let n = ctx.values@.len();
    if raw.len() == 0 {
        if n < next + 1 {
            Err(indexed_text(next as int, n as int))
        } else {
            Ok((ctx.texts()[next as int], next + 1))
        }
    } else {
        let name = trim(raw);
        match parse_usize(name) {
            Ok(i) => value_at(ctx, i as int, next),
            Err(_) => match find_name(ctx.names(), name, 0) {
                Some(p) => value_at(ctx, p, next),
                None => if name == seq!['?'] {
                    match ctx.count {
                        Some(c) => Ok((decimal(c as int), next)),
                        None => Err(count_text()),
                    }
                } else {
                    Err(unknown_text(name))
                },
            },
        }
    }
}

/// `t` from `pos` on, with its placeholders replaced and its escapes undone;
/// `next` is the index that the next `{}` takes.
pub open spec fn render_from(t: Seq<char>, pos: int, next: nat, ctx: Context) -> Result<
    Seq<char>,
    Seq<char>,
>
    decreases t.len() - pos,
{
    if pos < 0 || pos > t.len() {
        Ok(seq![])
    } else {
        match next_brace(t, pos) {
            None => Ok(t.subrange(pos, t.len() as int)),
            Some(k) => if k < pos || k >= t.len() {
                Ok(seq![])
            } else if t[k] == '}' {
                if k + 1 < t.len() && t[k + 1] == '}' {
                    prepend(t.subrange(pos, k + 1), render_from(t, k + 2, next, ctx))
                } else if k + 1 < t.len() {
                    Err(found_text(t[k + 1]))
                } else {
                    Err(terminated_text())
                }
            } else if k + 1 < t.len() && t[k + 1] == '{' {
                prepend(t.subrange(pos, k + 1), render_from(t, k + 2, next, ctx))
            } else {
                match next_char(t, '}', k) {
                    None => Err(terminated_text()),
                    Some(c) => if c <= k || c >= t.len() {
                        Ok(seq![])
                    } else {
                        match resolve(t.subrange(k + 1, c), next, ctx) {
                            Err(e) => Err(e),
                            Ok(v) => prepend(
                                t.subrange(pos, k) + v.0,
                                render_from(t, c + 1, v.1, ctx),
                            ),
                        }
                    },
                }
            },
        }
    }
}

/// `||` written as `|`, left to right, as `str::replace` does.
pub open spec fn collapse_pipes(s: Seq<char>) -> Seq<char>
    decreases s.len(),
{
    if s.len() == 0 {
        s
    } else if s.len() >= 2 && s[0] == '|' && s[1] == '|' {
        seq!['|'] + collapse_pipes(s.subrange(2, s.len() as int))
    } else {
        seq![s[0]] + collapse_pipes(s.drop_first())
    }
}

/// The substitution of a whole template; where the context has a count,
/// `||` is written as `|` afterwards.
pub open spec fn render(t: Seq<char>, ctx: Context) -> Result<Seq<char>, Seq<char>> {
    match render_from(t, 0, 0, ctx) {
        Ok(s) => Ok(
            if ctx.count is Some {
                collapse_pipes(s)
            } else {
                s
            },
        ),
        Err(e) => Err(e),
    }
}

fn find_brace(t: &Vec<char>, from: usize) -> (r: Option<usize>)
    requires
        from <= t.len(),
    ensures
        match r {
            Some(k) => next_brace(t@, from as int) == Some(k as int) && from <= k < t.len(),
            None => next_brace(t@, from as int) is None,
        },
{
    let mut i = from;
    while i < t.len()
        invariant
            from <= i <= t.len(),
            next_brace(t@, from as int) == next_brace(t@, i as int),
        decreases t.len() - i,
    {
        if t[i] == '{' || t[i] == '}' {
            return Some(i);
        }
        i = i + 1;
    }
    None
}

fn find_char(t: &Vec<char>, c: char, from: usize) -> (r: Option<usize>)
    requires
        from <= t.len(),
    ensures
        match r {
            Some(k) => next_char(t@, c, from as int) == Some(k as int) && from <= k < t.len()
                && t[k as int] == c,
            None => next_char(t@, c, from as int) is None,
        },
{
    let mut i = from;
    while i < t.len()
        invariant
            from <= i <= t.len(),
            next_char(t@, c, from as int) == next_char(t@, c, i as int),
        decreases t.len() - i,
    {
        if t[i] == c {
            return Some(i);
        }
        i = i + 1;
    }
    None
}

/// Whether `s` is the text `t[a..b]`.
pub fn same_text(s: &str, t: &Vec<char>, a: usize, b: usize) -> (r: bool)
    requires
        a <= b <= t.len(),
    ensures
        r == (s@ == t@.subrange(a as int, b as int)),
{
    let n = s.unicode_len();
    if n != b - a {
        return false;
    }
    let mut i: usize = 0;
    while i < n
        invariant
            n == s@.len() == b - a,
            a <= b <= t.len(),
            i <= n,
            forall|j: int| 0 <= j < i ==> s@[j] == t@[a + j],
        decreases n - i,
    {
        if s.get_char(i) != t[a + i] {
            return false;
        }
        i = i + 1;
    }
    assert(s@ =~= t@.subrange(a as int, b as int));
    true
}

fn formatting_error(detail: String) -> (e: Error)
    ensures
        e is FormattingError && e->FormattingError_0@ == detail@,
{
    Error::FormattingError(detail)
}

fn terminated_error() -> (e: Error)
    ensures
        e is FormattingError && e->FormattingError_0@ == terminated_text(),
{
    formatting_error("invalid format string: expected `'}'` but string was terminated.".to_owned())
}

fn reference_error(head: &str, i: usize, n: usize) -> (r: String)
    ensures
        r@ == head@ + decimal(i as int) + "'` (there is "@ + decimal(n as int) + " value)."@,
{
    let mut r = String::new();
    r.append(head);
    push_decimal(&mut r, i as i128);
    r.append("'` (there is ");
    push_decimal(&mut r, n as i128);
    r.append(" value).");
    r
}

fn value_at_exec(ctx: &Context, i: usize, next: usize) -> (r: Result<(String, usize), Error>)
    ensures
        match r {
            Ok(v) => value_at(*ctx, i as int, next as nat) == Ok::<(Seq<char>, nat), Seq<char>>(
                (v.0@, v.1 as nat),
            ) && v.1 == next,
            Err(e) => e is FormattingError && value_at(*ctx, i as int, next as nat) == Err::<
                (Seq<char>, nat),
                Seq<char>,
            >(e->FormattingError_0@),
        },
{
    if i < ctx.values.len() {
        Ok((ctx.values[i].1.to_string(), next))
    } else {
        Err(
            formatting_error(
                reference_error(
                    "invalid reference to positional value `'",
                    i,
                    ctx.values.len(),
                ),
            ),
        )
    }
}

fn resolve_exec(message: &str, t: &Vec<char>, lo: usize, hi: usize, next: usize, ctx: &Context) -> (r:
    Result<(String, usize), Error>)
    requires
        t@ == message@,
        lo <= hi <= t.len(),
        next <= ctx.values.len(),
    ensures
        match r {
            Ok(v) => resolve(t@.subrange(lo as int, hi as int), next as nat, *ctx) == Ok::<
                (Seq<char>, nat),
                Seq<char>,
            >((v.0@, v.1 as nat)) && v.1 <= ctx.values.len(),
            Err(e) => e is FormattingError && resolve(
                t@.subrange(lo as int, hi as int),
                next as nat,
                *ctx,
            ) == Err::<(Seq<char>, nat), Seq<char>>(e->FormattingError_0@),
        },
{
    let n = ctx.values.len();
    if lo == hi {
        if n <= next {
            return Err(
                formatting_error(
                    reference_error("invalid reference to indexed value `'", next, n),
                ),
            );
        }
        return Ok((ctx.values[next].1.to_string(), next + 1));
    }
    let (a, b) = trim_range(t, lo, hi);
    let ghost name = t@.subrange(a as int, b as int);
    match parse_usize_in(t, a, b) {
        Ok(i) => {
            return value_at_exec(ctx, i, next);
        },
        Err(_) => {},
    }
    let mut p: usize = 0;
    while p < n
        invariant
            n == ctx.values.len(),
            p <= n,
            find_name(ctx.names(), name, 0) == find_name(ctx.names(), name, p as int),
            name == t@.subrange(a as int, b as int),
            name == trim(t@.subrange(lo as int, hi as int)),
            parse_usize(name) is Err,
            lo < hi <= t.len(),
            a <= b <= t.len(),
            next <= n,
        decreases n - p,
    {
        assert(ctx.names()[p as int] == ctx.values@[p as int].0@);
        if same_text(ctx.values[p].0.as_str(), t, a, b) {
            return value_at_exec(ctx, p, next);
        }
        p = p + 1;
    }
    if b - a == 1 && t[a] == '?' {
        assert(name =~= seq!['?']);
        match ctx.count {
            Some(c) => {
                let mut r = String::new();
                push_decimal(&mut r, c as i128);
                return Ok((r, next));
            },
            None => {
                return Err(
                    formatting_error("invalid reference to count ( {?} ) value.".to_owned()),
                );
            },
        }
    }
    assert(name != seq!['?']) by {
        if name == seq!['?'] {
            assert(name.len() == 1 && name[0] == t@[a as int]);
        }
    }
    let mut r = String::new();
    r.append("cannot find value `'");
    r.append(message.substring_char(a, b));
    r.append("'` in this context.");
    Err(formatting_error(r))
}

fn collapse_pipes_exec(s: &String) -> (r: String)
    ensures
        r@ == collapse_pipes(s@),
{
    let t = chars_of(s.as_str());
    let n = t.len();
    let mut r = String::new();
    let mut i: usize = 0;
    proof {
        reveal_strlit("|");
    }
    assert(t@.subrange(0, n as int) =~= s@);
    assert(r@ + collapse_pipes(s@) =~= collapse_pipes(s@));
    while i < n
        invariant
            t@ == s@,
            n == t.len(),
            i <= n,
            collapse_pipes(s@) == r@ + collapse_pipes(t@.subrange(i as int, n as int)),
            "|"@ == seq!['|'],
        decreases n - i,
    {
        let ghost rest = t@.subrange(i as int, n as int);
        if i + 1 < n && t[i] == '|' && t[i + 1] == '|' {
            assert(rest.subrange(2, rest.len() as int) =~= t@.subrange(i + 2, n as int));
            r.append("|");
            i = i + 2;
        } else {
            assert(rest.drop_first() =~= t@.subrange(i + 1, n as int));
            assert(s@.subrange(i as int, i + 1) =~= seq![rest[0]]);
            r.append(s.as_str().substring_char(i, i + 1));
            i = i + 1;
        }
        assert(collapse_pipes(s@) == r@ + collapse_pipes(t@.subrange(i as int, n as int)));
    }
    assert(collapse_pipes(t@.subrange(n as int, n as int)) =~= Seq::<char>::empty());
    assert(r@ + Seq::<char>::empty() =~= r@);
    r
}

proof fn lemma_prepend_twice(a: Seq<char>, b: Seq<char>, r: Result<Seq<char>, Seq<char>>)
    ensures
        prepend(a, prepend(b, r)) == prepend(a + b, r),
{
    if let Ok(s) = r {
        assert(a + (b + s) =~= (a + b) + s);
    }
}

/// Substitutes the placeholders of `message` with the values of `context`.
pub fn format_raw(message: &str, context: &Context) -> (r: Result<String, Error>)
    ensures
        agrees(r, render(message@, *context)),
{
    let t = chars_of(message);
    let n = t.len();
    let mut out = String::new();
    let mut pos: usize = 0;
    let mut next: usize = 0;
    loop
        invariant_except_break
            t@ == message@,
            n == t.len(),
            pos <= n,
            next <= context.values.len(),
            render_from(t@, 0, 0, *context) == prepend(
                out@,
                render_from(t@, pos as int, next as nat, *context),
            ),
        ensures
            render_from(t@, 0, 0, *context) == Ok::<Seq<char>, Seq<char>>(out@),
        decreases n - pos,
    {
        match find_brace(&t, pos) {
            None => {
                out.append(message.substring_char(pos, n));
                break ;
            },
            Some(k) => {
                if t[k] == '}' {
                    if k + 1 < n && t[k + 1] == '}' {
                        let ghost before = out@;
                        out.append(message.substring_char(pos, k + 1));
                        proof {
                            lemma_prepend_twice(
                                before,
                                t@.subrange(pos as int, k + 1),
                                render_from(t@, k + 2, next as nat, *context),
                            );
                        }
                        pos = k + 2;
                    } else if k + 1 < n {
                        let mut d = String::new();
                        d.append("invalid format string: expected `'}'`, found `'");
                        d.append(message.substring_char(k + 1, k + 2));
                        d.append("'`.");
                        assert(message@.subrange(k + 1, k + 2) =~= seq![t@[k + 1]]);
                        return Err(formatting_error(d));
                    } else {
                        return Err(terminated_error());
                    }
                } else if k + 1 < n && t[k + 1] == '{' {
                    let ghost before = out@;
                    out.append(message.substring_char(pos, k + 1));
                    proof {
                        lemma_prepend_twice(
                            before,
                            t@.subrange(pos as int, k + 1),
                            render_from(t@, k + 2, next as nat, *context),
                        );
                    }
                    pos = k + 2;
                } else {
                    match find_char(&t, '}', k) {
                        None => {
                            return Err(terminated_error());
                        },
                        Some(c) => {
                            match resolve_exec(message, &t, k + 1, c, next, context) {
                                Err(e) => {
                                    return Err(e);
                                },
                                Ok(v) => {
                                    let ghost before = out@;
                                    out.append(message.substring_char(pos, k));
                                    out.append(v.0.as_str());
                                    assert(out@ =~= before + (t@.subrange(pos as int, k as int)
                                        + v.0@));
                                    proof {
                                        lemma_prepend_twice(
                                            before,
                                            t@.subrange(pos as int, k as int) + v.0@,
                                            render_from(t@, c + 1, v.1 as nat, *context),
                                        );
                                    }
                                    next = v.1;
                                    pos = c + 1;
                                },
                            }
                        },
                    }
                }
            },
        }
    }
    if context.count.is_some() {
        Ok(collapse_pipes_exec(&out))
    } else {
        Ok(out)
    }
}

// ---------------------------------------------------------------------------
// Plural rules
// ---------------------------------------------------------------------------

/// A condition on the count.
#[derive(Debug, Clone)]
pub enum Rule {
    RangeTo { to: i64 },
    RangeFrom { from: i64 },
    Range { from: i64, to: i64 },
    Match { values: Vec<i64> },
}

/// The model of a `Rule`.
pub enum RuleView {
    RangeTo(i64),
    RangeFrom(i64),
    Range(i64, i64),
    Match(Seq<i64>),
}

impl RuleView {
    pub open spec fn holds(self, value: i64) -> bool {
        match self {
            RuleView::RangeTo(to) => value <= to,
            RuleView::RangeFrom(from) => value >= from,
            RuleView::Range(from, to) => from <= value && value <= to,
            RuleView::Match(values) => values.contains(value),
        }
    }
}

impl View for Rule {
    type V = RuleView;

    open spec fn view(&self) -> RuleView {
        match self {
            Rule::RangeTo { to } => RuleView::RangeTo(*to),
            Rule::RangeFrom { from } => RuleView::RangeFrom(*from),
            Rule::Range { from, to } => RuleView::Range(*from, *to),
            Rule::Match { values } => RuleView::Match(values@),
        }
    }
}

impl Rule {
    /// Whether `value` meets the rule.
    pub fn matches(&self, value: i64) -> (r: bool)
        ensures
            r == self@.holds(value),
    {
        match self {
            Rule::RangeTo { to } => value <= *to,
            Rule::RangeFrom { from } => value >= *from,
            Rule::Range { from, to } => value >= *from && value <= *to,
            Rule::Match { values } => {
                let mut i: usize = 0;
                while i < values.len()
                    invariant
                        i <= values.len(),
                        self@ == RuleView::Match(values@),
                        forall|j: int| 0 <= j < i ==> values@[j] != value,
                    decreases values.len() - i,
                {
                    if values[i] == value {
                        assert(values@[i as int] == value);
                        return true;
                    }
                    i = i + 1;
                }
                false
            },
        }
    }
}

/// The values, in decimal, separated by `, `.
pub open spec fn join_values(vs: Seq<i64>) -> Seq<char>
    decreases vs.len(),
{
    if vs.len() == 0 {
        seq![]
    } else if vs.len() == 1 {
        decimal(vs[0] as int)
    } else {
        join_values(vs.drop_last()) + ", "@ + decimal(vs.last() as int)
    }
}

impl RuleView {
    /// The rule as it is written in a template.
    pub open spec fn text(self) -> Seq<char> {
        match self {
            RuleView::RangeTo(to) => "{.."@ + decimal(to as int) + "}"@,
            RuleView::RangeFrom(from) => "{"@ + decimal(from as int) + "..}"@,
            RuleView::Range(from, to) => "{"@ + decimal(from as int) + ".."@ + decimal(to as int)
                + "}"@,
            RuleView::Match(values) => "{"@ + join_values(values) + "}"@,
        }
    }
}

impl Rule {
    /// The rule as it is written in a template.
    pub fn to_string(&self) -> (r: String)
        ensures
            r@ == self@.text(),
    {
        let mut r = String::new();
        match self {
            Rule::RangeTo { to } => {
                r.append("{..");
                push_decimal(&mut r, *to as i128);
                r.append("}");
            },
            Rule::RangeFrom { from } => {
                r.append("{");
                push_decimal(&mut r, *from as i128);
                r.append("..}");
            },
            Rule::Range { from, to } => {
                r.append("{");
                push_decimal(&mut r, *from as i128);
                r.append("..");
                push_decimal(&mut r, *to as i128);
                r.append("}");
            },
            Rule::Match { values } => {
                r.append("{");
                let mut i: usize = 0;
                while i < values.len()
                    invariant
                        i <= values.len(),
                        r@ == "{"@ + join_values(values@.subrange(0, i as int)),
                    decreases values.len() - i,
                {
                    let ghost before = r@;
                    if i > 0 {
                        r.append(", ");
                    }
                    push_decimal(&mut r, values[i] as i128);
                    let ghost s = values@.subrange(0, i + 1);
                    assert(s.drop_last() =~= values@.subrange(0, i as int));
                    if i == 0 {
                        assert(values@.subrange(0, 0) =~= Seq::<i64>::empty());
                        assert(before =~= "{"@);
                    }
                    assert(r@ =~= "{"@ + join_values(s));
                    i = i + 1;
                }
                assert(values@.subrange(0, values@.len() as int) =~= values@);
                r.append("}");
            },
        }
        r
    }
}

/// Messages under rules, tried in order, and the message for every other count.
#[derive(Debug, Clone)]
pub struct PluralMessages {
    pub rules: Vec<(String, Rule)>,
    pub default: String,
}

/// The model of `PluralMessages`.
pub struct PluralView {
    pub rules: Seq<(Seq<char>, RuleView)>,
    pub default: Seq<char>,
}

impl View for PluralMessages {
    type V = PluralView;

    open spec fn view(&self) -> PluralView {
        PluralView {
            rules: self.rules@.map_values(|p: (String, Rule)| (p.0@, p.1@)),
            default: self.default@,
        }
    }
}

/// The message of the first rule that `value` meets, else `default`.
pub open spec fn select(rules: Seq<(Seq<char>, RuleView)>, default: Seq<char>, value: i64) -> Seq<
    char,
>
    decreases rules.len(),
{
    if rules.len() == 0 {
        default
    } else if rules[0].1.holds(value) {
        rules[0].0
    } else {
        select(rules.drop_first(), default, value)
    }
}

impl PluralView {
    pub open spec fn select(self, value: i64) -> Seq<char> {
        select(self.rules, self.default, value)
    }
}

impl PluralMessages {
    /// The message for the count `value`: the first whose rule it meets,
    /// else the default.
    pub fn matching(&self, value: i64) -> (r: String)
        ensures
            r@ == self@.select(value),
    {
        let ghost all = self@.rules;
        let mut i: usize = 0;
        assert(all.subrange(0, all.len() as int) =~= all);
        while i < self.rules.len()
            invariant
                all == self@.rules,
                all.len() == self.rules.len(),
                i <= self.rules.len(),
                select(all, self.default@, value) == select(
                    all.subrange(i as int, all.len() as int),
                    self.default@,
                    value,
                ),
            decreases self.rules.len() - i,
        {
            let ghost rest = all.subrange(i as int, all.len() as int);
            assert(rest.drop_first() =~= all.subrange(i + 1, all.len() as int));
            if self.rules[i].1.matches(value) {
                return self.rules[i].0.clone();
            }
            i = i + 1;
        }
        self.default.clone()
    }
}

/// `Ok(p + s)` for `Ok(s)`; an error stays as it is.
pub open spec fn then_prepend<A, E>(p: Seq<A>, r: Result<Seq<A>, E>) -> Result<Seq<A>, E> {
    match r {
        Ok(s) => Ok(p + s),
        Err(e) => Err(e),
    }
}

/// The trimmed pieces read as integers; the first that is none is the error.
pub open spec fn parse_values(ps: Seq<Seq<char>>) -> Result<Seq<i64>, (Seq<char>, IntErrorKind)>
    decreases ps.len(),
{
    if ps.len() == 0 {
        Ok(seq![])
    } else {
        match parse_i64(trim(ps[0])) {
            Err(k) => Err((trim(ps[0]), k)),
            Ok(v) => then_prepend(seq![v], parse_values(ps.drop_first())),
        }
    }
}

/// The first `..` of `s` at or after `i`.
pub open spec fn find_dots(s: Seq<char>, i: int) -> Option<int>
    decreases s.len() - i,
{
    if i < 0 || i + 1 >= s.len() {
        None
    } else if s[i] == '.' && s[i + 1] == '.' {
        Some(i)
    } else {
        find_dots(s, i + 1)
    }
}

pub open spec fn rule_text(seg: Seq<char>, tail: Seq<char>) -> Seq<char> {
    "formatting: failed to parse rule for `'"@ + seg + "'`, "@ + tail
}

pub open spec fn open_tail() -> Seq<char> {
    "expected `'{'` but string was terminated."@
}

pub open spec fn close_tail() -> Seq<char> {
    "expected `'}'` but string was terminated."@
}

pub open spec fn bound_text(which: Seq<char>, kind: Seq<char>, seg: Seq<char>, k: IntErrorKind) -> Seq<
    char,
> {
    "formatting: failed to parse `'"@ + which + "'` value in "@ + kind + " rule for `'"@ + seg
        + "'`, "@ + k.text() + "."@
}

pub open spec fn value_text(piece: Seq<char>, seg: Seq<char>, k: IntErrorKind) -> Seq<char> {
    "formatting: failed to parse value `'"@ + piece + "'` in match rule for `'"@ + seg + "'`, "@
        + k.text() + "."@
}

pub open spec fn no_default_text() -> Seq<char> {
    "formatting: failed to parse plural messages, expected at least a default message but string was terminated."@
}

/// A segment `{rule} message` read as its message and rule.
pub open spec fn parse_rule(seg: Seq<char>) -> Result<(Seq<char>, RuleView), Seq<char>> {
    if seg.len() == 0 || seg[0] != '{' {
        Err(rule_text(seg, open_tail()))
    } else {
        match next_char(seg, '}', 0) {
            None => Err(rule_text(seg, close_tail())),
            Some(e) => {
                let rs = seg.subrange(1, e);
                let target = trim(seg.subrange(e + 1, seg.len() as int));
                match find_dots(rs, 0) {
                    Some(p) => if p == 0 {
                        match parse_i64(rs.subrange(2, rs.len() as int)) {
                            Ok(to) => Ok((target, RuleView::RangeTo(to))),
                            Err(k) => Err(bound_text("to"@, "range-to"@, seg, k)),
                        }
                    } else if p == rs.len() - 2 {
                        match parse_i64(rs.subrange(0, p)) {
                            Ok(from) => Ok((target, RuleView::RangeFrom(from))),
                            Err(k) => Err(bound_text("from"@, "range-from"@, seg, k)),
                        }
                    } else {
                        match parse_i64(rs.subrange(0, p)) {
                            Err(k) => Err(bound_text("from"@, "range"@, seg, k)),
                            Ok(from) => match parse_i64(rs.subrange(p + 2, rs.len() as int)) {
                                Err(k) => Err(bound_text("to"@, "range"@, seg, k)),
                                Ok(to) => Ok((target, RuleView::Range(from, to))),
                            },
                        }
                    },
                    None => match parse_values(split_from(rs, ',', 0, 0)) {
                        Ok(vs) => Ok((target, RuleView::Match(vs))),
                        Err(pk) => Err(value_text(pk.0, seg, pk.1)),
                    },
                }
            },
        }
    }
}

/// The rules of the segments, in order; the first segment that is not a
/// rule gives the error.
pub open spec fn parse_rules(segs: Seq<Seq<char>>) -> Result<Seq<(Seq<char>, RuleView)>, Seq<char>>
    decreases segs.len(),
{
    if segs.len() == 0 {
        Ok(seq![])
    } else {
        match parse_rule(segs[0]) {
            Err(e) => Err(e),
            Ok(r) => then_prepend(seq![r], parse_rules(segs.drop_first())),
        }
    }
}

/// Every segment but the last is a rule; the last is the default message.
pub open spec fn plural_from_segments(segs: Seq<Seq<char>>) -> Result<PluralView, Seq<char>> {
    if segs.len() == 0 {
        Err(no_default_text())
    } else {
        match parse_rules(segs.drop_last()) {
            Ok(rules) => Ok(PluralView { rules, default: segs.last() }),
            Err(e) => Err(e),
        }
    }
}

/// Whether a grapheme cluster is a lone `|`.
pub open spec fn is_pipe(g: Seq<char>) -> bool {
    g == seq!['|']
}

/// How many `|` clusters end at index `i`.
pub open spec fn pipe_run(gs: Seq<Seq<char>>, i: int) -> nat
    decreases i + 1,
{
    if i < 0 || i >= gs.len() || !is_pipe(gs[i]) {
        0
    } else {
        1 + pipe_run(gs, i - 1)
    }
}

/// Whether the `|` at `i` separates two segments: it ends an odd run of
/// `|` and something other than `|` follows it (`||` is a literal `|`).
pub open spec fn splits_at(gs: Seq<Seq<char>>, i: int) -> bool {
    0 <= i && i + 1 < gs.len() && is_pipe(gs[i]) && !is_pipe(gs[i + 1]) && pipe_run(gs, i) % 2
        == 1
}

/// The clusters, end to end.
pub open spec fn join(gs: Seq<Seq<char>>) -> Seq<char>
    decreases gs.len(),
{
    if gs.len() == 0 {
        seq![]
    } else {
        join(gs.drop_last()) + gs.last()
    }
}

/// The trimmed segments from `start`, having looked up to `i`.
pub open spec fn segments_from(gs: Seq<Seq<char>>, start: int, i: int) -> Seq<Seq<char>>
    decreases gs.len() - i,
{
    if i >= gs.len() {
        if start < gs.len() {
            seq![trim(join(gs.subrange(start, gs.len() as int)))]
        } else {
            seq![]
        }
    } else if splits_at(gs, i) {
        seq![trim(join(gs.subrange(start, i)))] + segments_from(gs, i + 1, i + 1)
    } else {
        segments_from(gs, start, i + 1)
    }
}

/// The trimmed segments between the separating `|`.
pub open spec fn segments(gs: Seq<Seq<char>>) -> Seq<Seq<char>> {
    segments_from(gs, 0, 0)
}

/// The plural messages of a template: a template without `|` is its own
/// default message; an empty one is an error.
pub open spec fn plural_of(message: Seq<char>) -> Result<PluralView, Seq<char>> {
    let m = trim(message);
    if !m.contains('|') {
        if m.len() == 0 {
            Err(no_default_text())
        } else {
            Ok(PluralView { rules: seq![], default: m })
        }
    } else {
        plural_from_segments(segments(grapheme_clusters(m)))
    }
}

pub uninterp spec fn grapheme_clusters(s: Seq<char>) -> Seq<Seq<char>>;

/// Relies on `UnicodeSegmentation::graphemes` with extended clusters: the
/// grapheme clusters of `s`, in order.
#[verifier::external_body]
fn graphemes_of(s: &str) -> (r: Vec<&str>)
    ensures
        r@.map_values(|g: &str| g@) == grapheme_clusters(s@),
{
    unicode_segmentation::UnicodeSegmentation::graphemes(s, true).collect()
}

fn slice_chars(v: &Vec<char>, lo: usize, hi: usize) -> (r: Vec<char>)
    requires
        lo <= hi <= v.len(),
    ensures
        r@ == v@.subrange(lo as int, hi as int),
{
    let mut r: Vec<char> = Vec::new();
    let mut i = lo;
    while i < hi
        invariant
            lo <= i <= hi <= v.len(),
            r@ == v@.subrange(lo as int, i as int),
        decreases hi - i,
    {
        r.push(v[i]);
        i = i + 1;
        assert(r@ =~= v@.subrange(lo as int, i as int));
    }
    r
}

fn rule_error(seg: &str, tail: &str) -> (e: Error)
    ensures
        e is FormattingError && e->FormattingError_0@ == rule_text(seg@, tail@),
{
    let mut r = String::new();
    r.append("formatting: failed to parse rule for `'");
    r.append(seg);
    r.append("'`, ");
    r.append(tail);
    formatting_error(r)
}

fn bound_error(which: &str, kind: &str, seg: &str, k: IntErrorKind) -> (e: Error)
    ensures
        e is FormattingError && e->FormattingError_0@ == bound_text(which@, kind@, seg@, k),
{
    let mut r = String::new();
    r.append("formatting: failed to parse `'");
    r.append(which);
    r.append("'` value in ");
    r.append(kind);
    r.append(" rule for `'");
    r.append(seg);
    r.append("'`, ");
    r.append(k.describe());
    r.append(".");
    formatting_error(r)
}

fn value_error(piece: &str, seg: &str, k: IntErrorKind) -> (e: Error)
    ensures
        e is FormattingError && e->FormattingError_0@ == value_text(piece@, seg@, k),
{
    let mut r = String::new();
    r.append("formatting: failed to parse value `'");
    r.append(piece);
    r.append("'` in match rule for `'");
    r.append(seg);
    r.append("'`, ");
    r.append(k.describe());
    r.append(".");
    formatting_error(r)
}

/// The values of a match rule, `seg[1 + ..]` being `rs`.
fn parse_match_values(seg: &str, rs: &Vec<char>) -> (r: Result<Vec<i64>, Error>)
    requires
        rs.len() + 1 <= seg@.len() <= usize::MAX,
        rs@ == seg@.subrange(1, rs.len() + 1),
    ensures
        match r {
            Ok(vs) => parse_values(split_from(rs@, ',', 0, 0)) == Ok::<
                Seq<i64>,
                (Seq<char>, IntErrorKind),
            >(vs@),
            Err(e) => e is FormattingError && parse_values(split_from(rs@, ',', 0, 0)) is Err
                && e->FormattingError_0@ == value_text(
                parse_values(split_from(rs@, ',', 0, 0))->Err_0.0,
                seg@,
                parse_values(split_from(rs@, ',', 0, 0))->Err_0.1,
            ),
        },
{
    let m = rs.len();
    let mut values: Vec<i64> = Vec::new();
    let mut start: usize = 0;
    let mut i: usize = 0;
    loop
        invariant_except_break
            m == rs.len(),
            start <= i <= m,
            rs.len() + 1 <= seg@.len() <= usize::MAX,
            rs@ == seg@.subrange(1, rs.len() + 1),
            parse_values(split_from(rs@, ',', 0, 0)) == then_prepend(
                values@,
                parse_values(split_from(rs@, ',', start as int, i as int)),
            ),
        ensures
            parse_values(split_from(rs@, ',', 0, 0)) == Ok::<Seq<i64>, (Seq<char>, IntErrorKind)>(
                values@,
            ),
        decreases m - i,
    {
        if i == m || rs[i] == ',' {
            let ghost piece = rs@.subrange(start as int, i as int);
            let ghost rest = if i == m {
                Seq::<Seq<char>>::empty()
            } else {
                split_from(rs@, ',', i + 1, i + 1)
            };
            assert(split_from(rs@, ',', start as int, i as int) == seq![piece] + rest);
            assert((seq![piece] + rest)[0] == piece);
            assert((seq![piece] + rest).drop_first() =~= rest);
            let (a, b) = trim_range(rs, start, i);
            match parse_i64_in(rs, a, b) {
                Err(k) => {
                    assert(seg@.subrange(1 + a, 1 + b) =~= rs@.subrange(a as int, b as int));
                    let ghost pk = (rs@.subrange(a as int, b as int), k);
                    assert(parse_values(split_from(rs@, ',', start as int, i as int)) == Err::<
                        Seq<i64>,
                        (Seq<char>, IntErrorKind),
                    >(pk));
                    return Err(value_error(seg.substring_char(1 + a, 1 + b), seg, k));
                },
                Ok(v) => {
                    let ghost before = values@;
                    values.push(v);
                    proof {
                        match parse_values(rest) {
                            Ok(ws) => {
                                assert(before + (seq![v] + ws) =~= values@ + ws);
                            },
                            Err(_) => {},
                        }
                    }
                },
            }
            if i == m {
                assert(values@ + Seq::<i64>::empty() =~= values@);
                break ;
            }
            start = i + 1;
        }
        i = i + 1;
    }
    Ok(values)
}

/// Reads one segment `{rule} message`.
pub fn parse_rule_segment(seg: &str) -> (r: Result<(String, Rule), Error>)
    ensures
        match r {
            Ok(p) => parse_rule(seg@) == Ok::<(Seq<char>, RuleView), Seq<char>>((p.0@, p.1@)),
            Err(e) => e is FormattingError && parse_rule(seg@) == Err::<
                (Seq<char>, RuleView),
                Seq<char>,
            >(e->FormattingError_0@),
        },
{
    let s = chars_of(seg);
    let n = s.len();
    if n == 0 || s[0] != '{' {
        return Err(rule_error(seg, "expected `'{'` but string was terminated."));
    }
    let e = match find_char(&s, '}', 0) {
        None => {
            return Err(rule_error(seg, "expected `'}'` but string was terminated."));
        },
        Some(e) => e,
    };
    let rs = slice_chars(&s, 1, e);
    let m = rs.len();
    let (ta, tb) = trim_range(&s, e + 1, n);
    let target = seg.substring_char(ta, tb).to_owned();
    let rule = match find_dots_exec(&rs) {
        Some(p) => {
            if p == 0 {
                match parse_i64_in(&rs, 2, m) {
                    Ok(to) => Rule::RangeTo { to },
                    Err(k) => {
                        return Err(bound_error("to", "range-to", seg, k));
                    },
                }
            } else if p == m - 2 {
                match parse_i64_in(&rs, 0, p) {
                    Ok(from) => Rule::RangeFrom { from },
                    Err(k) => {
                        return Err(bound_error("from", "range-from", seg, k));
                    },
                }
            } else {
                match parse_i64_in(&rs, 0, p) {
                    Err(k) => {
                        return Err(bound_error("from", "range", seg, k));
                    },
                    Ok(from) => match parse_i64_in(&rs, p + 2, m) {
                        Err(k) => {
                            return Err(bound_error("to", "range", seg, k));
                        },
                        Ok(to) => Rule::Range { from, to },
                    },
                }
            }
        },
        None => match parse_match_values(seg, &rs) {
            Ok(values) => Rule::Match { values },
            Err(e) => {
                return Err(e);
            },
        },
    };
    Ok((target, rule))
}

fn find_dots_exec(rs: &Vec<char>) -> (r: Option<usize>)
    ensures
        match r {
            Some(p) => find_dots(rs@, 0) == Some(p as int) && p + 2 <= rs.len(),
            None => find_dots(rs@, 0) is None,
        },
{
    let mut i: usize = 0;
    while rs.len() >= 2 && i < rs.len() - 1
        invariant
            find_dots(rs@, 0) == find_dots(rs@, i as int),
        decreases rs.len() - i,
    {
        if rs[i] == '.' && rs[i + 1] == '.' {
            return Some(i);
        }
        i = i + 1;
    }
    None
}


/// The views of strings.
pub open spec fn texts_of(v: Seq<String>) -> Seq<Seq<char>> {
    v.map_values(|s: String| s@)
}

/// The views of string slices.
pub open spec fn slices_of(v: Seq<&str>) -> Seq<Seq<char>> {
    v.map_values(|s: &str| s@)
}

fn is_pipe_exec(g: &str) -> (r: bool)
    ensures
        r == is_pipe(g@),
{
    if g.unicode_len() == 1 && g.get_char(0) == '|' {
        assert(g@ =~= seq!['|']);
        true
    } else {
        false
    }
}

fn joined_trimmed(graphemes: &Vec<&str>, from: usize, to: usize) -> (r: String)
    requires
        from <= to <= graphemes.len(),
    ensures
        r@ == trim(join(slices_of(graphemes@).subrange(from as int, to as int))),
{
    let ghost gs = slices_of(graphemes@);
    let mut j = String::new();
    let mut k = from;
    assert(gs.subrange(from as int, from as int) =~= Seq::<Seq<char>>::empty());
    while k < to
        invariant
            gs == slices_of(graphemes@),
            from <= k <= to <= graphemes.len(),
            j@ == join(gs.subrange(from as int, k as int)),
        decreases to - k,
    {
        assert(gs.subrange(from as int, k + 1).drop_last() =~= gs.subrange(from as int, k as int));
        j.append(graphemes[k]);
        k = k + 1;
    }
    let cs = chars_of(j.as_str());
    let (a, b) = trim_range(&cs, 0, cs.len());
    assert(cs@.subrange(0, cs.len() as int) =~= j@);
    j.as_str().substring_char(a, b).to_owned()
}

/// Cuts grapheme clusters into trimmed segments at each separating `|`.
pub fn split_segments(graphemes: &Vec<&str>) -> (r: Vec<String>)
    ensures
        texts_of(r@) == segments(slices_of(graphemes@)),
{
    let ghost gs = slices_of(graphemes@);
    let n = graphemes.len();
    let mut out: Vec<String> = Vec::new();
    let mut start: usize = 0;
    let mut run: usize = 0;
    let mut i: usize = 0;
    assert(texts_of(out@) + segments(gs) =~= segments(gs));
    while i < n
        invariant
            gs == slices_of(graphemes@),
            n == graphemes.len(),
            start <= i <= n,
            run <= i,
            run == pipe_run(gs, i - 1),
            segments(gs) == texts_of(out@) + segments_from(gs, start as int, i as int),
        decreases n - i,
    {
        if is_pipe_exec(graphemes[i]) {
            run = run + 1;
            if i + 1 < n && !is_pipe_exec(graphemes[i + 1]) && run % 2 == 1 {
                let ghost before = texts_of(out@);
                let seg = joined_trimmed(graphemes, start, i);
                out.push(seg);
                assert(texts_of(out@) =~= before.push(seg@));
                assert(before + (seq![seg@] + segments_from(gs, i + 1, i + 1)) =~= before.push(
                    seg@,
                ) + segments_from(gs, i + 1, i + 1));
                start = i + 1;
            }
        } else {
            run = 0;
        }
        i = i + 1;
    }
    if start < n {
        let ghost before = texts_of(out@);
        let seg = joined_trimmed(graphemes, start, n);
        out.push(seg);
        assert(texts_of(out@) =~= before + seq![seg@]);
    } else {
        assert(texts_of(out@) + Seq::<Seq<char>>::empty() =~= texts_of(out@));
    }
    out
}

/// The model of the rules of `PluralMessages`.
pub open spec fn rules_of(v: Seq<(String, Rule)>) -> Seq<(Seq<char>, RuleView)> {
    v.map_values(|p: (String, Rule)| (p.0@, p.1@))
}

/// Whether a parse result of the library agrees with one of the model.
pub open spec fn plural_agrees(r: Result<PluralMessages, Error>, m: Result<PluralView, Seq<char>>) -> bool {
    match r {
        Ok(pm) => m == Ok::<PluralView, Seq<char>>(pm@),
        Err(e) => e is FormattingError && m == Err::<PluralView, Seq<char>>(
            e->FormattingError_0@,
        ),
    }
}

/// Reads segments as plural messages: each but the last is `{rule} message`,
/// the last is the default message.
pub fn plural_messages_from_segments(segs: &Vec<String>) -> (r: Result<PluralMessages, Error>)
    ensures
        plural_agrees(r, plural_from_segments(texts_of(segs@))),
{
    let ghost ss = texts_of(segs@);
    if segs.len() == 0 {
        return Err(
            formatting_error(
                "formatting: failed to parse plural messages, expected at least a default message but string was terminated.".to_owned(),
            ),
        );
    }
    let last = segs.len() - 1;
    let ghost heads = ss.drop_last();
    let mut rules: Vec<(String, Rule)> = Vec::new();
    let mut i: usize = 0;
    assert(heads.subrange(0, last as int) =~= heads);
    assert(rules_of(rules@) + Seq::<(Seq<char>, RuleView)>::empty() =~= Seq::<
        (Seq<char>, RuleView),
    >::empty());
    while i < last
        invariant
            ss == texts_of(segs@),
            heads == ss.drop_last(),
            last + 1 == segs.len(),
            i <= last,
            parse_rules(heads) == then_prepend(
                rules_of(rules@),
                parse_rules(heads.subrange(i as int, last as int)),
            ),
        decreases last - i,
    {
        let ghost rest = heads.subrange(i as int, last as int);
        assert(rest[0] == segs@[i as int]@);
        assert(rest.drop_first() =~= heads.subrange(i + 1, last as int));
        match parse_rule_segment(segs[i].as_str()) {
            Err(e) => {
                return Err(e);
            },
            Ok(p) => {
                let ghost before = rules_of(rules@);
                let ghost pv = (p.0@, p.1@);
                rules.push(p);
                assert(rules_of(rules@) =~= before.push(pv));
                proof {
                    match parse_rules(heads.subrange(i + 1, last as int)) {
                        Ok(ws) => {
                            assert(before + (seq![pv] + ws) =~= before.push(pv) + ws);
                        },
                        Err(_) => {},
                    }
                }
            },
        }
        i = i + 1;
    }
    assert(heads.subrange(last as int, last as int) =~= Seq::<Seq<char>>::empty());
    assert(rules_of(rules@) + Seq::<(Seq<char>, RuleView)>::empty() =~= rules_of(rules@));
    let pm = PluralMessages { rules, default: segs[last].clone() };
    assert(ss.last() == segs@[last as int]@);
    Ok(pm)
}

/// Reads a template as plural messages.
pub fn parse_plural_messages(message: &str) -> (r: Result<PluralMessages, Error>)
    ensures
        plural_agrees(r, plural_of(message@)),
{
    let t = chars_of(message);
    let (a, b) = trim_range(&t, 0, t.len());
    assert(t@.subrange(0, t.len() as int) =~= message@);
    let ghost m = t@.subrange(a as int, b as int);
    let mut has_pipe = false;
    let mut j = a;
    while j < b
        invariant
            a <= j <= b <= t.len(),
            m == t@.subrange(a as int, b as int),
            has_pipe ==> m.contains('|'),
            !has_pipe ==> forall|x: int| 0 <= x < j - a ==> m[x] != '|',
        decreases b - j,
    {
        if t[j] == '|' {
            assert(m[j - a] == '|');
            has_pipe = true;
        }
        j = j + 1;
    }
    if !has_pipe {
        assert(!m.contains('|'));
        if a == b {
            return Err(
                formatting_error(
                    "formatting: failed to parse plural messages, expected at least a default message but string was terminated.".to_owned(),
                ),
            );
        }
        let pm = PluralMessages { rules: Vec::new(), default: message.substring_char(a, b).to_owned() };
        assert(pm@.rules =~= Seq::<(Seq<char>, RuleView)>::empty());
        return Ok(pm);
    }
    let trimmed = message.substring_char(a, b);
    let gs = graphemes_of(trimmed);
    let segs = split_segments(&gs);
    plural_messages_from_segments(&segs)
}

/// What `format` gives: with a count, the plural form for it, substituted;
/// without one, the template substituted.
pub open spec fn format_spec(message: Seq<char>, ctx: Context) -> Result<Seq<char>, Seq<char>> {
    match ctx.count {
        Some(c) => match plural_of(message) {
            Ok(pm) => render(pm.select(c), ctx),
            Err(e) => Err(e),
        },
        None => render(message, ctx),
    }
}

/// Something that turns a template and a context into a message.
pub trait Formatter {
    fn format(&self, locale: &Locale, message: &str, context: &Context) -> Result<String, Error>;
}

/// The formatter of this library; see `format`.
#[derive(Debug, Clone, Copy)]
pub struct DefaultFormatter;

impl DefaultFormatter {
    /// The formatter.
    pub fn new() -> (r: DefaultFormatter)
        ensures
            r == DefaultFormatter,
    {
        DefaultFormatter
    }

    /// Formats `message` with `context`.  The locale is not read.
    pub fn format(&self, locale: &Locale, message: &str, context: &Context) -> (r: Result<
        String,
        Error,
    >)
        ensures
            agrees(r, format_spec(message@, *context)),
    {
        match context.count {
            Some(c) => match parse_plural_messages(message) {
                Ok(pm) => {
                    let chosen = pm.matching(c);
                    format_raw(chosen.as_str(), context)
                },
                Err(e) => Err(e),
            },
            None => format_raw(message, context),
        }
    }
}

impl Formatter for DefaultFormatter {
    fn format(&self, locale: &Locale, message: &str, context: &Context) -> Result<String, Error> {
        DefaultFormatter::format(self, locale, message, context)
    }
}


// ---------------------------------------------------------------------------
// Laws
// ---------------------------------------------------------------------------

/// Without a count, formatting is placeholder substitution and nothing else.
pub proof fn lemma_format_without_count(message: Seq<char>, ctx: Context)
    requires
        ctx.count is None,
    ensures
        format_spec(message, ctx) == render(message, ctx),
{
}

proof fn lemma_select(rules: Seq<(Seq<char>, RuleView)>, default: Seq<char>, value: i64)
    ensures
        (exists|i: int|
            0 <= i < rules.len() && rules[i].1.holds(value) && (forall|j: int|
                0 <= j < i ==> !rules[j].1.holds(value)) && select(rules, default, value)
                == rules[i].0) || ((forall|i: int| 0 <= i < rules.len() ==> !rules[i].1.holds(value))
            && select(rules, default, value) == default),
    decreases rules.len(),
{
    if rules.len() > 0 {
        if rules[0].1.holds(value) {
            assert(forall|j: int| 0 <= j < 0 ==> !rules[j].1.holds(value));
        } else {
            let rest = rules.drop_first();
            lemma_select(rest, default, value);
            if exists|i: int|
                0 <= i < rest.len() && rest[i].1.holds(value) && (forall|j: int|
                    0 <= j < i ==> !rest[j].1.holds(value)) && select(rest, default, value)
                    == rest[i].0 {
                let i = choose|i: int|
                    0 <= i < rest.len() && rest[i].1.holds(value) && (forall|j: int|
                        0 <= j < i ==> !rest[j].1.holds(value)) && select(rest, default, value)
                        == rest[i].0;
                assert(rules[i + 1] == rest[i]);
                assert forall|j: int| 0 <= j < i + 1 implies !rules[j].1.holds(value) by {
                    if j > 0 {
                        assert(rules[j] == rest[j - 1]);
                    }
                }
            } else {
                assert forall|i: int| 0 <= i < rules.len() implies !rules[i].1.holds(value) by {
                    if i > 0 {
                        assert(rules[i] == rest[i - 1]);
                    }
                }
            }
        }
    }
}

/// With a count, formatting picks exactly one message of the template and
/// substitutes it: that of the first rule the count meets, or the default
/// message when it meets none.
pub proof fn lemma_plural_picks_first_match(message: Seq<char>, ctx: Context)
    requires
        ctx.count is Some,
        plural_of(message) is Ok,
    ensures
        ({
            let pm = plural_of(message)->Ok_0;
            let count = ctx.count->Some_0;
            &&& format_spec(message, ctx) == render(pm.select(count), ctx)
            &&& (exists|i: int|
                0 <= i < pm.rules.len() && pm.rules[i].1.holds(count) && (forall|j: int|
                    0 <= j < i ==> !pm.rules[j].1.holds(count)) && pm.select(count)
                    == pm.rules[i].0) || ((forall|i: int|
                0 <= i < pm.rules.len() ==> !pm.rules[i].1.holds(count)) && pm.select(count)
                == pm.default)
        }),
{
    let pm = plural_of(message)->Ok_0;
    lemma_select(pm.rules, pm.default, ctx.count->Some_0);
}

pub open spec fn is_brace(c: char) -> bool {
    c == '{' || c == '}'
}

/// How many `{` and `}` a text holds.
pub open spec fn brace_count(s: Seq<char>) -> nat
    decreases s.len(),
{
    if s.len() == 0 {
        0
    } else {
        brace_count(s.drop_last()) + if is_brace(s.last()) {
            1nat
        } else {
            0nat
        }
    }
}

proof fn lemma_brace_count_concat(a: Seq<char>, b: Seq<char>)
    ensures
        brace_count(a + b) == brace_count(a) + brace_count(b),
    decreases b.len(),
{
    if b.len() > 0 {
        assert((a + b).drop_last() =~= a + b.drop_last());
        lemma_brace_count_concat(a, b.drop_last());
    } else {
        assert(a + b =~= a);
    }
}

proof fn lemma_brace_count_split(t: Seq<char>, a: int, b: int, c: int)
    requires
        0 <= a <= b <= c <= t.len(),
    ensures
        brace_count(t.subrange(a, c)) == brace_count(t.subrange(a, b)) + brace_count(
            t.subrange(b, c),
        ),
{
    assert(t.subrange(a, c) =~= t.subrange(a, b) + t.subrange(b, c));
    lemma_brace_count_concat(t.subrange(a, b), t.subrange(b, c));
}

proof fn lemma_brace_count_one(t: Seq<char>, k: int)
    requires
        0 <= k < t.len(),
    ensures
        brace_count(t.subrange(k, k + 1)) == if is_brace(t[k]) {
            1nat
        } else {
            0nat
        },
{
    let u = t.subrange(k, k + 1);
    assert(u.drop_last() =~= Seq::<char>::empty());
    assert(u.last() == t[k]);
    assert(brace_count(u.drop_last()) == 0);
}

proof fn lemma_no_brace(s: Seq<char>)
    requires
        forall|j: int| 0 <= j < s.len() ==> !is_brace(#[trigger] s[j]),
    ensures
        brace_count(s) == 0,
    decreases s.len(),
{
    if s.len() > 0 {
        lemma_no_brace(s.drop_last());
    }
}

proof fn lemma_next_brace(t: Seq<char>, i: int)
    requires
        0 <= i <= t.len(),
    ensures
        match next_brace(t, i) {
            None => forall|j: int| i <= j < t.len() ==> !is_brace(#[trigger] t[j]),
            Some(k) => i <= k < t.len() && is_brace(t[k]) && forall|j: int|
                i <= j < k ==> !is_brace(#[trigger] t[j]),
        },
    decreases t.len() - i,
{
    if i < t.len() && !is_brace(t[i]) {
        lemma_next_brace(t, i + 1);
    }
}

proof fn lemma_next_char(t: Seq<char>, c: char, i: int)
    requires
        0 <= i <= t.len(),
    ensures
        match next_char(t, c, i) {
            None => true,
            Some(k) => i <= k < t.len() && t[k] == c,
        },
    decreases t.len() - i,
{
    if i < t.len() && t[i] != c {
        lemma_next_char(t, c, i + 1);
    }
}

proof fn lemma_digits_no_brace(n: nat)
    ensures
        brace_count(digits(n)) == 0,
    decreases n,
{
    if n >= 10 {
        lemma_digits_no_brace(n / 10);
        lemma_brace_count_concat(digits(n / 10), seq![digit_char((n % 10) as int)]);
    }
    lemma_no_brace(seq![digit_char((n % 10) as int)]);
}

proof fn lemma_decimal_no_brace(n: int)
    ensures
        brace_count(decimal(n)) == 0,
{
    if n < 0 {
        lemma_digits_no_brace((-n) as nat);
        lemma_no_brace(seq!['-']);
        lemma_brace_count_concat(seq!['-'], digits((-n) as nat));
    } else {
        lemma_digits_no_brace(n as nat);
    }
}

proof fn lemma_render_from_braces(t: Seq<char>, pos: int, next: nat, ctx: Context)
    requires
        0 <= pos <= t.len(),
        forall|i: int| 0 <= i < ctx.texts().len() ==> brace_count(#[trigger] ctx.texts()[i]) == 0,
    ensures
        match render_from(t, pos, next, ctx) {
            Ok(s) => 2 * brace_count(s) <= brace_count(t.subrange(pos, t.len() as int)),
            Err(_) => true,
        },
    decreases t.len() - pos,
{
    let n = t.len() as int;
    lemma_next_brace(t, pos);
    match next_brace(t, pos) {
        None => {
            lemma_no_brace(t.subrange(pos, n));
        },
        Some(k) => {
            lemma_no_brace(t.subrange(pos, k));
            if (t[k] == '}' && k + 1 < n && t[k + 1] == '}') || (t[k] == '{' && k + 1 < n && t[k + 1]
                == '{') {
                lemma_render_from_braces(t, k + 2, next, ctx);
                lemma_brace_count_split(t, pos, k, n);
                lemma_brace_count_split(t, k, k + 2, n);
                lemma_brace_count_split(t, pos, k, k + 1);
                lemma_brace_count_split(t, k, k + 1, k + 2);
                lemma_brace_count_one(t, k);
                lemma_brace_count_one(t, k + 1);
                if let Ok(s2) = render_from(t, k + 2, next, ctx) {
                    lemma_brace_count_concat(t.subrange(pos, k + 1), s2);
                }
            } else if t[k] == '{' {
                lemma_next_char(t, '}', k);
                if let Some(c) = next_char(t, '}', k) {
                    if c > k {
                        lemma_brace_count_split(t, pos, k, n);
                        lemma_brace_count_split(t, k, c + 1, n);
                        lemma_brace_count_split(t, k, k + 1, c + 1);
                        lemma_brace_count_split(t, k + 1, c, c + 1);
                        lemma_brace_count_one(t, k);
                        lemma_brace_count_one(t, c);
                        match resolve(t.subrange(k + 1, c), next, ctx) {
                            Ok(v) => {
                                lemma_render_from_braces(t, c + 1, v.1, ctx);
                                if let Some(cnt) = ctx.count {
                                    lemma_decimal_no_brace(cnt as int);
                                }
                                assert(brace_count(v.0) == 0);
                                if let Ok(s2) = render_from(t, c + 1, v.1, ctx) {
                                    lemma_brace_count_concat(t.subrange(pos, k), v.0);
                                    lemma_brace_count_concat(t.subrange(pos, k) + v.0, s2);
                                }
                            },
                            Err(_) => {},
                        }
                    }
                }
            }
        },
    }
}

proof fn lemma_collapse_braces(s: Seq<char>)
    ensures
        brace_count(collapse_pipes(s)) == brace_count(s),
    decreases s.len(),
{
    if s.len() >= 2 && s[0] == '|' && s[1] == '|' {
        let rest = s.subrange(2, s.len() as int);
        lemma_collapse_braces(rest);
        lemma_brace_count_concat(seq!['|'], collapse_pipes(rest));
        assert(s =~= seq!['|', '|'] + rest);
        lemma_brace_count_concat(seq!['|', '|'], rest);
        lemma_no_brace(seq!['|']);
        lemma_no_brace(seq!['|', '|']);
    } else if s.len() > 0 {
        let rest = s.drop_first();
        lemma_collapse_braces(rest);
        lemma_brace_count_concat(seq![s[0]], collapse_pipes(rest));
        assert(s =~= seq![s[0]] + rest);
        lemma_brace_count_concat(seq![s[0]], rest);
    }
}

/// Substitution does not read its own output: when no value of the context
/// holds a brace, every brace of the result comes from an escape (`{{` or
/// `}}`) of the template, so the result holds at most half as many braces
/// as the template.
pub proof fn lemma_braces_only_from_escapes(t: Seq<char>, ctx: Context)
    requires
        forall|i: int| 0 <= i < ctx.texts().len() ==> brace_count(#[trigger] ctx.texts()[i]) == 0,
    ensures
        match render(t, ctx) {
            Ok(s) => 2 * brace_count(s) <= brace_count(t),
            Err(_) => true,
        },
{
    lemma_render_from_braces(t, 0, 0, ctx);
    assert(t.subrange(0, t.len() as int) =~= t);
    if let Ok(s) = render_from(t, 0, 0, ctx) {
        lemma_collapse_braces(s);
    }
}


/// Whether `t` holds an escape, `{{` or `}}`.
pub open spec fn has_escape(t: Seq<char>) -> bool {
    exists|i: int|
        0 <= i < t.len() - 1 && ((#[trigger] t[i] == '{' && t[i + 1] == '{') || (t[i] == '}'
            && t[i + 1] == '}'))
}

/// Whether `s` holds a `{` or a `}`.
pub open spec fn has_brace(s: Seq<char>) -> bool {
    s.contains('{') || s.contains('}')
}

proof fn lemma_brace_count_zero(s: Seq<char>)
    requires
        brace_count(s) == 0,
    ensures
        !has_brace(s),
    decreases s.len(),
{
    if s.len() > 0 {
        lemma_brace_count_zero(s.drop_last());
        assert forall|j: int| 0 <= j < s.len() implies !is_brace(#[trigger] s[j]) by {
            if j < s.len() - 1 {
                assert(s.drop_last()[j] == s[j]);
                if is_brace(s[j]) {
                    assert(s.drop_last().contains(s[j]));
                }
            }
        }
    }
}

proof fn lemma_render_from_no_escape(t: Seq<char>, pos: int, next: nat, ctx: Context)
    requires
        0 <= pos <= t.len(),
        !has_escape(t),
        forall|i: int| 0 <= i < ctx.texts().len() ==> brace_count(#[trigger] ctx.texts()[i]) == 0,
    ensures
        match render_from(t, pos, next, ctx) {
            Ok(s) => brace_count(s) == 0,
            Err(_) => true,
        },
    decreases t.len() - pos,
{
    let n = t.len() as int;
    lemma_next_brace(t, pos);
    match next_brace(t, pos) {
        None => {
            lemma_no_brace(t.subrange(pos, n));
        },
        Some(k) => {
            lemma_no_brace(t.subrange(pos, k));
            if (t[k] == '}' && k + 1 < n && t[k + 1] == '}') || (t[k] == '{' && k + 1 < n && t[k + 1]
                == '{') {
                assert(t[k] == t[k]);
                assert(has_escape(t));
            } else if t[k] == '{' {
                lemma_next_char(t, '}', k);
                if let Some(c) = next_char(t, '}', k) {
                    if c > k {
                        match resolve(t.subrange(k + 1, c), next, ctx) {
                            Ok(v) => {
                                lemma_render_from_no_escape(t, c + 1, v.1, ctx);
                                if let Some(cnt) = ctx.count {
                                    lemma_decimal_no_brace(cnt as int);
                                }
                                if let Ok(s2) = render_from(t, c + 1, v.1, ctx) {
                                    lemma_brace_count_concat(t.subrange(pos, k), v.0);
                                    lemma_brace_count_concat(t.subrange(pos, k) + v.0, s2);
                                }
                            },
                            Err(_) => {},
                        }
                    }
                }
            }
        },
    }
}

/// An output brace can only come from an escape of the template or from a
/// substituted value: a template without `{{` or `}}`, filled from values
/// without braces, gives a text without braces.
pub proof fn lemma_no_brace_without_escape(t: Seq<char>, ctx: Context)
    requires
        !has_escape(t),
        forall|i: int| 0 <= i < ctx.texts().len() ==> !has_brace(#[trigger] ctx.texts()[i]),
    ensures
        match render(t, ctx) {
            Ok(s) => !has_brace(s),
            Err(_) => true,
        },
{
    assert forall|i: int| 0 <= i < ctx.texts().len() implies brace_count(
        #[trigger] ctx.texts()[i],
    ) == 0 by {
        let v = ctx.texts()[i];
        assert forall|j: int| 0 <= j < v.len() implies !is_brace(#[trigger] v[j]) by {
            if is_brace(v[j]) {
                assert(v.contains(v[j]));
            }
        }
        lemma_no_brace(v);
    }
    lemma_render_from_no_escape(t, 0, 0, ctx);
    if let Ok(s) = render_from(t, 0, 0, ctx) {
        lemma_collapse_braces(s);
        if ctx.count is Some {
            lemma_brace_count_zero(collapse_pipes(s));
        } else {
            lemma_brace_count_zero(s);
        }
    }
}

} // verus!
