//! Parser combinators over a text cursor.
//!
//! A parser reads a `Context` — a text and a position in it, counted in
//! characters — and either succeeds with a value and the advanced
//! context, or fails with what it expected and the context of the
//! failure. Combinators build larger parsers out of smaller ones;
//! `parse` runs one from the start of a text and renders failures as an
//! error message.
//!
//! Each parser's behaviour is captured by two spec functions of the
//! `Parser` trait: `pre` says on which contexts it may be run, and
//! `post` relates the input context to every result its `run` may
//! return. Leaf parsers pin their result exactly; combinators compose
//! the relations of their parts.

use vstd::prelude::*;

use core::marker::PhantomData;

verus! {

/// A position inside a text, counted in characters.
pub struct Context {
    pub txt: String,
    pub pos: usize,
}

impl Context {
    /// The position lies inside the text (or just past its end).
    pub open spec fn wf(&self) -> bool {
        self.pos <= self.txt@.len()
    }
}

impl Clone for Context {
    fn clone(&self) -> (c: Context)
        ensures
            c == *self,
    {
        Context { txt: self.txt.clone(), pos: self.pos }
    }
}

/// A successful parse: the value and the context after it.
pub struct Success<T> {
    pub val: T,
    pub ctx: Context,
}

/// A failed parse: what was expected and the context of the failure.
pub struct Failure {
    pub exp: String,
    pub ctx: Context,
}

/// Packs a value and a context into a `Success`.
pub fn success<T>(ctx: Context, val: T) -> (s: Success<T>)
    ensures
        s.val == val,
        s.ctx == ctx,
{
    Success { val, ctx }
}

/// Packs an expectation and a context into a `Failure`.
pub fn failure(ctx: Context, exp: String) -> (f: Failure)
    ensures
        f.exp == exp,
        f.ctx == ctx,
{
    Failure { exp, ctx }
}

/// Do two contexts carry the same text and position?
pub open spec fn ctx_eq(a: Context, b: Context) -> bool {
    a.txt@ == b.txt@ && a.pos == b.pos
}

/// Do two failures report the same expectation at the same place?
pub open spec fn fail_eq(a: Failure, b: Failure) -> bool {
    a.exp@ == b.exp@ && ctx_eq(a.ctx, b.ctx)
}

/// Every parser result stays within the same text, keeps the cursor well
/// formed and never moves it backwards.
pub open spec fn res_wf<T>(ctx: Context, res: Result<Success<T>, Failure>) -> bool {
    match res {
        Ok(s) => s.ctx.wf() && s.ctx.txt@ == ctx.txt@ && ctx.pos <= s.ctx.pos,
        Err(f) => f.ctx.wf() && f.ctx.txt@ == ctx.txt@ && ctx.pos <= f.ctx.pos,
    }
}

/// Something that parses a context into a value of type `Output`.
pub trait Parser: Sized {
    /// What a success of this parser carries.
    type Output;

    /// On which contexts the parser may be run.
    spec fn pre(&self, ctx: Context) -> bool;

    /// How a result relates to the context the parser was run on.
    spec fn post(&self, ctx: Context, res: Result<Success<Self::Output>, Failure>) -> bool;

    /// Runs the parser on `ctx`.
    fn run(&self, ctx: Context) -> (res: Result<Success<Self::Output>, Failure>)
        requires
            ctx.wf(),
            self.pre(ctx),
        ensures
            self.post(ctx, res),
            res_wf(ctx, res),
    ;
}

/// Does `target` occur in `txt` starting exactly at `pos`?
pub open spec fn str_match_at(txt: Seq<char>, pos: int, target: Seq<char>) -> bool {
    pos + target.len() <= txt.len() && txt.subrange(pos, pos + target.len()) == target
}

/// Matches a fixed string at the current position.
pub struct StringParser {
    pub target: String,
}

impl Parser for StringParser {
    type Output = String;

    open spec fn pre(&self, ctx: Context) -> bool {
        true
    }

    open spec fn post(&self, ctx: Context, res: Result<Success<String>, Failure>) -> bool {
        if str_match_at(ctx.txt@, ctx.pos as int, self.target@) {
            res matches Ok(s) && s.val@ == self.target@ && s.ctx.txt@ == ctx.txt@ && s.ctx.pos
                == ctx.pos + self.target@.len()
        } else {
            res matches Err(f) && f.exp@ == self.target@ && ctx_eq(f.ctx, ctx)
        }
    }

    fn run(&self, ctx: Context) -> (res: Result<Success<String>, Failure>) {
        let tlen = self.target.as_str().unicode_len();
        let txt_len = ctx.txt.as_str().unicode_len();
        if txt_len - ctx.pos >= tlen {
            let slice = ctx.txt.as_str().substring_char(ctx.pos, ctx.pos + tlen);
            if slice.to_owned() == self.target {
                let val = self.target.clone();
                return Ok(Success { val, ctx: Context { txt: ctx.txt, pos: ctx.pos + tlen } });
            }
            let exp = self.target.clone();
            return Err(Failure { exp, ctx });
        }
        let exp = self.target.clone();
        Err(Failure { exp, ctx })
    }
}

/// The first match of the pattern in the text, as character offsets
/// `(start, end)`; `None` when nothing matches or the pattern is not a
/// regular expression the engine accepts. What the value is on given
/// inputs only the regular-expression engine decides; it depends on the
/// pattern and the text alone.
pub uninterp spec fn regex_find(pattern: Seq<char>, text: Seq<char>) -> Option<(usize, usize)>;

/// Relies on regex::Regex::new and regex::Regex::find: the first match of
/// the compiled pattern in the text, converted from byte offsets to
/// character offsets; a pattern the engine rejects matches nothing. The
/// result depends on the pattern and the text alone.
#[verifier::external_body]
fn regex_search(pattern: &str, text: &str) -> (r: Option<(usize, usize)>)
    ensures
        r == regex_find(pattern@, text@),
        r matches Some(p) ==> p.0 <= p.1 <= text@.len(),
{
    let re = match regex::Regex::new(pattern) {
        Ok(re) => re,
        Err(_) => return None,
    };
    match re.find(text) {
        Some(m) => {
            let start = text[..m.start()].chars().count();
            let end = text[..m.end()].chars().count();
            Some((start, end))
        },
        None => None,
    }
}

/// Matches a regular expression at the current position: the engine's
/// first match must start exactly there.
pub struct RegexParser {
    pub pattern: String,
    pub expected: String,
}

impl Parser for RegexParser {
    type Output = String;

    open spec fn pre(&self, ctx: Context) -> bool {
        true
    }

    open spec fn post(&self, ctx: Context, res: Result<Success<String>, Failure>) -> bool {
        let rest = ctx.txt@.subrange(ctx.pos as int, ctx.txt@.len() as int);
        match regex_find(self.pattern@, rest) {
            Some(m) => if m.0 == 0 {
                res matches Ok(s) && s.val@ == rest.subrange(0, m.1 as int) && s.ctx.txt@
                    == ctx.txt@ && s.ctx.pos == ctx.pos + m.1
            } else {
                res matches Err(f) && f.exp@ == self.expected@ && ctx_eq(f.ctx, ctx)
            },
            None => res matches Err(f) && f.exp@ == self.expected@ && ctx_eq(f.ctx, ctx),
        }
    }

    fn run(&self, ctx: Context) -> (res: Result<Success<String>, Failure>) {
        let txt_len = ctx.txt.as_str().unicode_len();
        let rest = ctx.txt.as_str().substring_char(ctx.pos, txt_len);
        match regex_search(self.pattern.as_str(), rest) {
            Some((start, end)) => {
                if start == 0 {
                    let val = rest.substring_char(0, end).to_owned();
                    return Ok(Success { val, ctx: Context { txt: ctx.txt, pos: ctx.pos + end } });
                }
                let exp = self.expected.clone();
                Err(Failure { exp, ctx })
            },
            None => {
                let exp = self.expected.clone();
                Err(Failure { exp, ctx })
            },
        }
    }
}

/// Builds the parser for a fixed string.
pub fn string(target: String) -> (p: StringParser)
    ensures
        p.target == target,
{
    StringParser { target }
}

/// Builds the parser for a regular expression; failures report
/// `expected`.
pub fn regex(target: String, expected: String) -> (p: RegexParser)
    ensures
        p.pattern == target,
        p.expected == expected,
{
    RegexParser { pattern: target, expected }
}

/// Turns a parser's failure into a success carrying `None`.
pub struct OptionalParser<P> {
    pub inner: P,
}

impl<P: Parser> Parser for OptionalParser<P> {
    type Output = Option<P::Output>;

    open spec fn pre(&self, ctx: Context) -> bool {
        self.inner.pre(ctx)
    }

    open spec fn post(&self, ctx: Context, res: Result<Success<Option<P::Output>>, Failure>) -> bool {
        match res {
            Ok(s) => (exists|s0: Success<P::Output>|
                #[trigger] self.inner.post(ctx, Ok(s0)) && s.val == Some(s0.val) && ctx_eq(
                    s.ctx,
                    s0.ctx,
                )) || (exists|f0: Failure|
                #[trigger] self.inner.post(ctx, Err(f0)) && s.val is None && ctx_eq(s.ctx, f0.ctx)),
            Err(_f) => false,
        }
    }

    fn run(&self, ctx: Context) -> (res: Result<Success<Option<P::Output>>, Failure>) {
        match self.inner.run(ctx) {
            Ok(s) => Ok(Success { val: Some(s.val), ctx: s.ctx }),
            Err(f) => Ok(Success { val: None, ctx: f.ctx }),
        }
    }
}

/// Builds a parser that turns `parser`'s failure into `None`.
pub fn optional<P: Parser>(parser: P) -> (p: OptionalParser<P>)
    ensures
        p.inner == parser,
{
    OptionalParser { inner: parser }
}

/// Runs two parsers one after the other and pairs their values.
pub struct SequenceParser<A, B> {
    pub first: A,
    pub second: B,
}

impl<A: Parser, B: Parser> Parser for SequenceParser<A, B> {
    type Output = (A::Output, B::Output);

    open spec fn pre(&self, ctx: Context) -> bool {
        self.first.pre(ctx) && forall|s0: Success<A::Output>|
            #[trigger] self.first.post(ctx, Ok(s0)) ==> self.second.pre(s0.ctx)
    }

    open spec fn post(
        &self,
        ctx: Context,
        res: Result<Success<(A::Output, B::Output)>, Failure>,
    ) -> bool {
        match res {
            Ok(s) => exists|sa: Success<A::Output>, sb: Success<B::Output>|
                #[trigger] self.first.post(ctx, Ok(sa)) && #[trigger] self.second.post(
                    sa.ctx,
                    Ok(sb),
                ) && s.val.0 == sa.val && s.val.1 == sb.val && ctx_eq(s.ctx, sb.ctx),
            Err(f) => (exists|fa: Failure|
                #[trigger] self.first.post(ctx, Err(fa)) && fail_eq(f, fa)) || (exists|
                sa: Success<A::Output>,
                fb: Failure,
            |
                #[trigger] self.first.post(ctx, Ok(sa)) && #[trigger] self.second.post(
                    sa.ctx,
                    Err(fb),
                ) && fail_eq(f, fb)),
        }
    }

    fn run(&self, ctx: Context) -> (res: Result<Success<(A::Output, B::Output)>, Failure>) {
        let sa = match self.first.run(ctx) {
            Ok(s) => s,
            Err(f) => {
                return Err(f);
            },
        };
        let sb = match self.second.run(sa.ctx) {
            Ok(s) => s,
            Err(f) => {
                return Err(f);
            },
        };
        Ok(Success { val: (sa.val, sb.val), ctx: sb.ctx })
    }
}

/// Builds the sequential composition of two parsers.
pub fn sequence<A: Parser, B: Parser>(a: A, b: B) -> (p: SequenceParser<A, B>)
    ensures
        p.first == a,
        p.second == b,
{
    SequenceParser { first: a, second: b }
}

/// Can the parser fail on this context? Relational parsers may allow
/// both outcomes; this records that a failure is among them.
pub open spec fn can_fail<P: Parser>(p: P, ctx: Context) -> bool {
    exists|f: Failure| #[trigger] p.post(ctx, Err(f))
}

/// Tries parsers in order and keeps the first success.
pub struct AnyParser<P> {
    pub parsers: Vec<P>,
}

impl<P: Parser> Parser for AnyParser<P> {
    type Output = P::Output;

    open spec fn pre(&self, ctx: Context) -> bool {
        forall|i: int| 0 <= i < self.parsers@.len() ==> (#[trigger] self.parsers@[i]).pre(ctx)
    }

    open spec fn post(&self, ctx: Context, res: Result<Success<P::Output>, Failure>) -> bool {
        match res {
            Ok(s) => exists|i: int, s0: Success<P::Output>|
                0 <= i < self.parsers@.len() && #[trigger] self.parsers@[i].post(ctx, Ok(s0))
                    && s.val == s0.val && ctx_eq(s.ctx, s0.ctx) && (forall|j: int|
                    0 <= j < i ==> can_fail(#[trigger] self.parsers@[j], ctx)),
            Err(f) => f.exp@ == "any()"@ && ctx_eq(f.ctx, ctx) && forall|j: int|
                0 <= j < self.parsers@.len() ==> can_fail(#[trigger] self.parsers@[j], ctx),
        }
    }

    fn run(&self, ctx: Context) -> (res: Result<Success<P::Output>, Failure>) {
        let n = self.parsers.len();
        let mut i: usize = 0;
        while i < n
            invariant
                n == self.parsers@.len(),
                0 <= i <= n,
                ctx.wf(),
                self.pre(ctx),
                forall|j: int| 0 <= j < i ==> can_fail(#[trigger] self.parsers@[j], ctx),
            decreases n - i,
        {
            match self.parsers[i].run(ctx.clone()) {
                Ok(s) => {
                    proof {
                        assert(self.parsers@[i as int].post(ctx, Ok(s)));
                    }
                    return Ok(s);
                },
                Err(f) => {
                    proof {
                        assert(self.parsers@[i as int].post(ctx, Err(f)));
                        assert(can_fail(self.parsers@[i as int], ctx));
                    }
                },
            }
            i = i + 1;
        }
        let exp = String::from_str("any()");
        Err(Failure { exp, ctx })
    }
}

/// Builds a parser that tries each of `parsers` in order.
pub fn any<P: Parser>(parsers: Vec<P>) -> (p: AnyParser<P>)
    ensures
        p.parsers == parsers,
{
    AnyParser { parsers }
}

/// Applies a fallible function to a parser's value; the function's error
/// becomes the expectation of a failure at the inner parser's end.
pub struct MapParser<P, F, U> {
    pub inner: P,
    pub mapper: F,
    pub _out: PhantomData<U>,
}

impl<P: Parser, U, F: Fn(P::Output) -> Result<U, String>> Parser for MapParser<P, F, U> {
    type Output = U;

    open spec fn pre(&self, ctx: Context) -> bool {
        self.inner.pre(ctx) && forall|s0: Success<P::Output>|
            #[trigger] self.inner.post(ctx, Ok(s0)) ==> call_requires(self.mapper, (s0.val,))
    }

    open spec fn post(&self, ctx: Context, res: Result<Success<U>, Failure>) -> bool {
        match res {
            Ok(s) => exists|s0: Success<P::Output>|
                #[trigger] self.inner.post(ctx, Ok(s0)) && call_ensures(
                    self.mapper,
                    (s0.val,),
                    Ok::<U, String>(s.val),
                ) && ctx_eq(s.ctx, s0.ctx),
            Err(f) => (exists|f0: Failure|
                #[trigger] self.inner.post(ctx, Err(f0)) && fail_eq(f, f0)) || (exists|
                s0: Success<P::Output>,
            |
                #[trigger] self.inner.post(ctx, Ok(s0)) && call_ensures(
                    self.mapper,
                    (s0.val,),
                    Err::<U, String>(f.exp),
                ) && ctx_eq(f.ctx, s0.ctx)),
        }
    }

    fn run(&self, ctx: Context) -> (res: Result<Success<U>, Failure>) {
        let s0 = match self.inner.run(ctx) {
            Ok(s) => s,
            Err(f) => {
                return Err(f);
            },
        };
        match (self.mapper)(s0.val) {
            Ok(u) => Ok(Success { val: u, ctx: s0.ctx }),
            Err(msg) => Err(Failure { exp: msg, ctx: s0.ctx }),
        }
    }
}

/// Builds a parser that maps `parser`'s value through `mapper`.
pub fn map<P: Parser, U, F: Fn(P::Output) -> Result<U, String>>(parser: P, mapper: F) -> (p:
    MapParser<P, F, U>)
    ensures
        p.inner == parser,
        p.mapper == mapper,
{
    MapParser { inner: parser, mapper, _out: PhantomData }
}

/// A run of one parser: the contexts threaded through `k` consecutive
/// successes, with the values they produced.
pub open spec fn chain_ok<P: Parser>(
    p: P,
    vals: Seq<P::Output>,
    ctxs: Seq<Context>,
) -> bool {
    &&& ctxs.len() == vals.len() + 1
    &&& forall|i: int|
        0 <= i < vals.len() ==> #[trigger] p.post(
            ctxs[i],
            Ok(Success { val: vals[i], ctx: ctxs[i + 1] }),
        )
}

/// Repeats a parser as long as it succeeds and gathers the values. At
/// least one success is required; the repetition also ends after a
/// success that consumed nothing, since repeating it could never end.
pub struct ManyParser<P> {
    pub inner: P,
}

impl<P: Parser> Parser for ManyParser<P> {
    type Output = Vec<P::Output>;

    /// The repeated parser must accept every position of the text.
    open spec fn pre(&self, ctx: Context) -> bool {
        forall|c: Context| c.wf() && c.txt@ == ctx.txt@ ==> #[trigger] self.inner.pre(c)
    }

    open spec fn post(&self, ctx: Context, res: Result<Success<Vec<P::Output>>, Failure>) -> bool {
        match res {
            Ok(s) => exists|vals: Seq<P::Output>, ctxs: Seq<Context>|
                #[trigger] chain_ok(self.inner, vals, ctxs) && ctxs[0] == ctx && vals.len() >= 1
                    && s.val@ == vals && ctx_eq(s.ctx, ctxs.last()) && (can_fail(
                    self.inner,
                    ctxs.last(),
                ) || ctxs.last().pos == ctxs[ctxs.len() - 2].pos),
            Err(f) => exists|f0: Failure|
                #[trigger] self.inner.post(ctx, Err(f0)) && fail_eq(f, f0),
        }
    }

    fn run(&self, ctx: Context) -> (res: Result<Success<Vec<P::Output>>, Failure>) {
        let mut ret: Vec<P::Output> = Vec::new();
        let ghost mut vals: Seq<P::Output> = Seq::empty();
        let ghost mut ctxs: Seq<Context> = seq![ctx];
        let mut cur = ctx;
        loop
            invariant
                cur.wf(),
                self.pre(ctx),
                cur.txt@ == ctx.txt@,
                ctx.pos <= cur.pos,
                ctxs.len() == vals.len() + 1,
                ctxs[0] == ctx,
                ctxs.last() == cur,
                ret@ == vals,
                chain_ok(self.inner, vals, ctxs),
            decreases cur.txt@.len() - cur.pos,
        {
            match self.inner.run(cur.clone()) {
                Err(f) => {
                    proof {
                        assert(self.inner.post(ctxs.last(), Err(f)));
                        assert(can_fail(self.inner, ctxs.last()));
                    }
                    if ret.len() == 0 {
                        proof {
                            assert(cur == ctx);
                            assert(self.inner.post(ctx, Err(f)));
                        }
                        return Err(f);
                    }
                    return Ok(Success { val: ret, ctx: cur });
                },
                Ok(s) => {
                    let consumed_nothing = s.ctx.pos == cur.pos;
                    proof {
                        vals = vals.push(s.val);
                        ctxs = ctxs.push(s.ctx);
                        assert(chain_ok(self.inner, vals, ctxs)) by {
                            assert(forall|i: int|
                                0 <= i < vals.len() - 1 ==> ctxs[i] == ctxs.drop_last()[i]
                                    && vals[i] == vals.drop_last()[i]);
                        }
                    }
                    cur = s.ctx;
                    ret.push(s.val);
                    if consumed_nothing {
                        return Ok(Success { val: ret, ctx: cur });
                    }
                },
            }
        }
    }
}

/// Builds a parser that repeats `parser` while it succeeds.
pub fn many<P: Parser>(parser: P) -> (p: ManyParser<P>)
    ensures
        p.inner == parser,
{
    ManyParser { inner: parser }
}

/// Replaces a parser's expectation on failure.
pub struct ExpectParser<P> {
    pub inner: P,
    pub expected: String,
}

impl<P: Parser> Parser for ExpectParser<P> {
    type Output = P::Output;

    open spec fn pre(&self, ctx: Context) -> bool {
        self.inner.pre(ctx)
    }

    open spec fn post(&self, ctx: Context, res: Result<Success<P::Output>, Failure>) -> bool {
        match res {
            Ok(s) => exists|s0: Success<P::Output>|
                #[trigger] self.inner.post(ctx, Ok(s0)) && s.val == s0.val && ctx_eq(s.ctx, s0.ctx),
            Err(f) => exists|f0: Failure|
                #[trigger] self.inner.post(ctx, Err(f0)) && f.exp@ == self.expected@ && ctx_eq(
                    f.ctx,
                    f0.ctx,
                ),
        }
    }

    fn run(&self, ctx: Context) -> (res: Result<Success<P::Output>, Failure>) {
        match self.inner.run(ctx) {
            Ok(s) => Ok(s),
            Err(f) => {
                let exp = self.expected.clone();
                Err(Failure { exp, ctx: f.ctx })
            },
        }
    }
}

/// Builds a parser that reports `expected` when `parser` fails.
pub fn expect<P: Parser>(parser: P, expected: String) -> (p: ExpectParser<P>)
    ensures
        p.inner == parser,
        p.expected == expected,
{
    ExpectParser { inner: parser, expected }
}

/// The length of the run of spaces at `pos` in `txt`.
pub open spec fn space_run(txt: Seq<char>, pos: int) -> int
    decreases txt.len() - pos,
{
    if 0 <= pos < txt.len() && txt[pos] == ' ' {
        1 + space_run(txt, pos + 1)
    } else {
        0
    }
}

/// Matches one or more spaces; its value is exactly the run of spaces
/// consumed.
pub struct SpacesParser {
    pub blank: String,
}

impl Parser for SpacesParser {
    type Output = String;

    open spec fn pre(&self, ctx: Context) -> bool {
        self.blank@ == " "@
    }

    open spec fn post(&self, ctx: Context, res: Result<Success<String>, Failure>) -> bool {
        let n = space_run(ctx.txt@, ctx.pos as int);
        if n == 0 {
            res matches Err(f) && f.exp@ == " "@ && ctx_eq(f.ctx, ctx)
        } else {
            res matches Ok(s) && s.val@ == ctx.txt@.subrange(ctx.pos as int, ctx.pos + n)
                && s.ctx.txt@ == ctx.txt@ && s.ctx.pos == ctx.pos + n
        }
    }

    fn run(&self, ctx: Context) -> (res: Result<Success<String>, Failure>) {
        let txt_len = ctx.txt.as_str().unicode_len();
        let mut k: usize = 0;
        while ctx.pos + k < txt_len && ctx.txt.as_str().get_char(ctx.pos + k) == ' '
            invariant
                ctx.wf(),
                txt_len == ctx.txt@.len(),
                ctx.pos + k <= txt_len,
                space_run(ctx.txt@, ctx.pos as int) == k + space_run(
                    ctx.txt@,
                    ctx.pos as int + k as int,
                ),
            decreases txt_len - ctx.pos - k,
        {
            k = k + 1;
        }
        if k == 0 {
            let exp = self.blank.clone();
            return Err(Failure { exp, ctx });
        }
        let val = ctx.txt.as_str().substring_char(ctx.pos, ctx.pos + k).to_owned();
        Ok(Success { val, ctx: Context { txt: ctx.txt, pos: ctx.pos + k } })
    }
}

/// Builds a parser for one or more spaces.
pub fn spaces() -> (p: SpacesParser)
    ensures
        p.blank@ == " "@,
{
    SpacesParser { blank: String::from_str(" ") }
}

/// Builds a parser for a run of decimal digits, as text.
pub fn integer() -> (p: RegexParser)
    ensures
        p.pattern@ == "\\d+"@,
        p.expected@ == "integer"@,
{
    regex(String::from_str("\\d+"), String::from_str("integer"))
}

/// Builds a parser for digits, a dot, then optional digits, as text.
pub fn float() -> (p: RegexParser)
    ensures
        p.pattern@ == "\\d+\\.\\d*"@,
        p.expected@ == "float"@,
{
    regex(String::from_str("\\d+\\.\\d*"), String::from_str("float"))
}

/// The shape of a parsed-value result on context `ctx`: the engine's
/// first match of `pattern` must start exactly at the cursor; the
/// matched text is then handed to a conversion, whose outcome decides
/// between a success carrying some value and a failure expecting
/// `parse_expected`. Either way the cursor moves past the match.
pub open spec fn parsed_value_post<T>(
    pattern: Seq<char>,
    expected: Seq<char>,
    parse_expected: Seq<char>,
    ctx: Context,
    res: Result<Success<T>, Failure>,
) -> bool {
    let rest = ctx.txt@.subrange(ctx.pos as int, ctx.txt@.len() as int);
    match regex_find(pattern, rest) {
        Some(m) => if m.0 == 0 {
            match res {
                Ok(s) => s.ctx.txt@ == ctx.txt@ && s.ctx.pos == ctx.pos + m.1,
                Err(f) => f.exp@ == parse_expected && f.ctx.txt@ == ctx.txt@ && f.ctx.pos == ctx.pos
                    + m.1,
            }
        } else {
            res matches Err(f) && f.exp@ == expected && ctx_eq(f.ctx, ctx)
        },
        None => res matches Err(f) && f.exp@ == expected && ctx_eq(f.ctx, ctx),
    }
}

/// Matches a regular expression and converts the matched text to a value.
/// Which matched texts convert is the conversion's affair, so a success
/// pins the consumed text but not the value.
pub struct ParsedValueParser<T, F> {
    pub pattern: String,
    pub expected: String,
    pub parse_expected: String,
    pub converter: F,
    pub _value: PhantomData<T>,
}

/// Relies on str::parse through the value type's FromStr implementation;
/// which texts convert, and to what, is that implementation's own
/// affair, so nothing is promised of the outcome.
#[verifier::external_body]
fn from_str_text<T: core::str::FromStr>(s: String) -> Option<T> {
    s.parse::<T>().ok()
}

impl<T, F: Fn(String) -> Option<T>> Parser for ParsedValueParser<T, F> {
    type Output = T;

    open spec fn pre(&self, ctx: Context) -> bool {
        forall|s: String| call_requires(self.converter, (s,))
    }

    open spec fn post(&self, ctx: Context, res: Result<Success<T>, Failure>) -> bool {
        parsed_value_post(self.pattern@, self.expected@, self.parse_expected@, ctx, res)
    }

    fn run(&self, ctx: Context) -> (res: Result<Success<T>, Failure>) {
        let txt_len = ctx.txt.as_str().unicode_len();
        let rest = ctx.txt.as_str().substring_char(ctx.pos, txt_len);
        match regex_search(self.pattern.as_str(), rest) {
            Some((start, end)) => {
                if start == 0 {
                    let matched = rest.substring_char(0, end).to_owned();
                    let after = Context { txt: ctx.txt, pos: ctx.pos + end };
                    return match (self.converter)(matched) {
                        Some(v) => Ok(Success { val: v, ctx: after }),
                        None => {
                            let exp = self.parse_expected.clone();
                            Err(Failure { exp, ctx: after })
                        },
                    };
                }
                let exp = self.expected.clone();
                Err(Failure { exp, ctx })
            },
            None => {
                let exp = self.expected.clone();
                Err(Failure { exp, ctx })
            },
        }
    }
}

/// Builds a parser for a decimal integer converted to `T` through its
/// own text conversion.
pub fn parsed_integer<T: core::str::FromStr>() -> (p: ParsedValueParser<
    T,
    impl Fn(String) -> Option<T>,
>)
    ensures
        p.pattern@ == "\\d+"@,
        p.expected@ == "integer"@,
        p.parse_expected@ == "parsable integer"@,
{
    ParsedValueParser {
        pattern: String::from_str("\\d+"),
        expected: String::from_str("integer"),
        parse_expected: String::from_str("parsable integer"),
        converter: |s: String| from_str_text::<T>(s),
        _value: PhantomData,
    }
}

/// Builds a parser for a decimal fraction converted to `T` through its
/// own text conversion.
pub fn parsed_float<T: core::str::FromStr>() -> (p: ParsedValueParser<
    T,
    impl Fn(String) -> Option<T>,
>)
    ensures
        p.pattern@ == "\\d+\\.\\d*"@,
        p.expected@ == "float"@,
        p.parse_expected@ == "parsable float"@,
{
    ParsedValueParser {
        pattern: String::from_str("\\d+\\.\\d*"),
        expected: String::from_str("float"),
        parse_expected: String::from_str("parsable float"),
        converter: |s: String| from_str_text::<T>(s),
        _value: PhantomData,
    }
}

/// The decimal digit `d` as a character.
pub open spec fn digit_char(d: int) -> char {
    if d == 0 {
        '0'
    } else if d == 1 {
        '1'
    } else if d == 2 {
        '2'
    } else if d == 3 {
        '3'
    } else if d == 4 {
        '4'
    } else if d == 5 {
        '5'
    } else if d == 6 {
        '6'
    } else if d == 7 {
        '7'
    } else if d == 8 {
        '8'
    } else {
        '9'
    }
}

/// The decimal rendering of `n`, most significant digit first.
pub open spec fn dec_str(n: nat) -> Seq<char>
    decreases n,
{
    if n < 10 {
        seq![digit_char(n as int)]
    } else {
        dec_str(n / 10) + seq![digit_char((n % 10) as int)]
    }
}

fn digit_str(d: usize) -> (s: &'static str)
    requires
        d < 10,
    ensures
        s@ == seq![digit_char(d as int)],
{
    proof {
        reveal_strlit("0");
        reveal_strlit("1");
        reveal_strlit("2");
        reveal_strlit("3");
        reveal_strlit("4");
        reveal_strlit("5");
        reveal_strlit("6");
        reveal_strlit("7");
        reveal_strlit("8");
        reveal_strlit("9");
    }
    let s = match d {
        0 => "0",
        1 => "1",
        2 => "2",
        3 => "3",
        4 => "4",
        5 => "5",
        6 => "6",
        7 => "7",
        8 => "8",
        _ => "9",
    };
    proof {
        assert(s@ =~= seq![digit_char(d as int)]);
    }
    s
}

fn usize_to_string(n: usize) -> (s: String)
    ensures
        s@ == dec_str(n as nat),
    decreases n,
{
    if n < 10 {
        let s = String::from_str(digit_str(n));
        proof {
            assert(s@ =~= dec_str(n as nat));
        }
        s
    } else {
        let mut s = usize_to_string(n / 10);
        s.append(digit_str(n % 10));
        proof {
            assert(s@ =~= dec_str(n as nat));
        }
        s
    }
}

/// The message `parse` renders for a failure that expected `exp` at
/// character position `pos`.
pub open spec fn error_message_spec(exp: Seq<char>, pos: nat) -> Seq<char> {
    "Parser error, expected '"@ + exp + "' at position '"@ + dec_str(pos) + "'"@
}

fn error_message(exp: &str, pos: usize) -> (s: String)
    ensures
        s@ == error_message_spec(exp@, pos as nat),
{
    let mut s = String::from_str("Parser error, expected '");
    s.append(exp);
    s.append("' at position '");
    let num = usize_to_string(pos);
    s.append(num.as_str());
    s.append("'");
    proof {
        assert(s@ =~= error_message_spec(exp@, pos as nat));
    }
    s
}

/// Runs a parser from the start of `txt`. A success yields the parsed
/// value; a failure is rendered as an error message naming what was
/// expected and the character position.
pub fn parse<T, P: Parser<Output = T>>(txt: String, parser: P) -> (r: Result<T, String>)
    requires
        parser.pre(Context { txt: txt, pos: 0 }),
    ensures
        match r {
            Ok(v) => exists|s: Success<T>|
                parser.post(Context { txt: txt, pos: 0 }, Ok(s)) && v == s.val,
            Err(msg) => exists|f: Failure|
                parser.post(Context { txt: txt, pos: 0 }, Err(f)) && msg@ == error_message_spec(
                    f.exp@,
                    f.ctx.pos as nat,
                ),
        },
{
    let ctx = Context { txt, pos: 0 };
    match parser.run(ctx) {
        Ok(s) => Ok(s.val),
        Err(f) => Err(error_message(f.exp.as_str(), f.ctx.pos)),
    }
}



} // verus!
