//! A minimal template engine: a template is cut into runs of literal text and
//! placeholders `{{name}}`, and rendering replaces each placeholder whose name
//! is known by its value.

use vstd::hash_map::StringHashMap;
use vstd::prelude::*;
use vstd::string::*;

verus! {

/// One run of a template: literal text, or the name between `{{` and `}}`.
pub enum Token {
    Text(Seq<char>),
    Var(Seq<char>),
}

/// Whether the character `c` stands at `i` and again at `i + 1`.
pub open spec fn pair_at(s: Seq<char>, c: char, i: int) -> bool {
    &&& 0 <= i
    &&& i + 1 < s.len()
    &&& s[i] == c
    &&& s[i + 1] == c
}

/// The least index at or after `from` where `c` stands twice in a row; the
/// length of `s` where it never does.
pub open spec fn find_pair(s: Seq<char>, c: char, from: int) -> int
    decreases s.len() - from,
{
    if from < 0 || from + 1 >= s.len() {
        s.len() as int
    } else if s[from] == c && s[from + 1] == c {
        from
    } else {
        find_pair(s, c, from + 1)
    }
}

/// The token that starts at `pos`, with the position that follows it.
///
/// Text runs up to the next `{{`, or to the end where there is none. A `{{`
/// at `pos` opens a placeholder that the first `}}` behind it closes; where
/// nothing closes it, the `{{` alone is text.
pub open spec fn next_token(s: Seq<char>, pos: int) -> (Token, int) {
    let open = find_pair(s, '{', pos);
    if open > pos {
        (Token::Text(s.subrange(pos, open)), open)
    } else {
        let close = find_pair(s, '}', pos + 2);
        if close < s.len() {
            (Token::Var(s.subrange(pos + 2, close)), close + 2)
        } else {
            (Token::Text(s.subrange(pos, pos + 2)), pos + 2)
        }
    }
}

/// The tokens of `s` from `pos` to its end.
pub open spec fn tokens_from(s: Seq<char>, pos: int) -> Seq<Token>
    decreases s.len() - pos,
{
    if 0 <= pos < s.len() {
        proof {
            lemma_next_token_advances(s, pos);
        }
        seq![next_token(s, pos).0] + tokens_from(s, next_token(s, pos).1)
    } else {
        Seq::empty()
    }
}

/// The tokens of the template `s`.
pub open spec fn tokens(s: Seq<char>) -> Seq<Token> {
    tokens_from(s, 0)
}

/// A placeholder as it is written in a template.
pub open spec fn placeholder(name: Seq<char>) -> Seq<char> {
    seq!['{', '{'] + name + seq!['}', '}']
}

/// What a token contributes to the output: text as it is, a known variable's
/// value, an unknown variable's placeholder unchanged.
pub open spec fn expand(token: Token, vars: Map<Seq<char>, Seq<char>>) -> Seq<char> {
    match token {
        Token::Text(text) => text,
        Token::Var(name) => if vars.contains_key(name) {
            vars[name]
        } else {
            placeholder(name)
        },
    }
}

/// The expansions of `tokens`, one after the other.
pub open spec fn substitute(tokens: Seq<Token>, vars: Map<Seq<char>, Seq<char>>) -> Seq<char>
    decreases tokens.len(),
{
    if tokens.len() == 0 {
        Seq::empty()
    } else {
        expand(tokens[0], vars) + substitute(tokens.drop_first(), vars)
    }
}

/// The template `s` with the variables `vars` filled in.
pub open spec fn render(s: Seq<char>, vars: Map<Seq<char>, Seq<char>>) -> Seq<char> {
    substitute(tokens(s), vars)
}

/// A token of the running program, borrowed from the template.
#[derive(Debug, PartialEq)]
pub enum TemplateToken<'a> {
    Text(&'a str),
    Var(&'a str),
}

impl<'a> View for TemplateToken<'a> {
    type V = Token;

    open spec fn view(&self) -> Token {
        match self {
            TemplateToken::Text(text) => Token::Text(text@),
            TemplateToken::Var(name) => Token::Var(name@),
        }
    }
}

/// A run over the tokens of one template, from its start.
pub struct TemplateIter<'a> {
    template: &'a str,
    chars: Vec<char>,
    pos: usize,
}

impl<'a> TemplateIter<'a> {
    #[verifier::type_invariant]
    spec fn well_formed(&self) -> bool {
        &&& self.chars@ == self.template@
        &&& self.pos <= self.chars.len()
    }

    /// The template that this run reads.
    pub closed spec fn source(&self) -> Seq<char> {
        self.template@
    }

    /// Where the next token starts.
    pub closed spec fn position(&self) -> int {
        self.pos as int
    }

    /// The next token, or `None` at the end of the template.
    pub fn next(&mut self) -> (token: Option<TemplateToken<'a>>)
        ensures
            final(self).source() == old(self).source(),
            0 <= final(self).position() <= final(self).source().len(),
            match token {
                Some(t) => {
                    &&& old(self).position() < old(self).source().len()
                    &&& t@ == next_token(old(self).source(), old(self).position()).0
                    &&& final(self).position() == next_token(
                        old(self).source(),
                        old(self).position(),
                    ).1
                },
                None => {
                    &&& old(self).position() == old(self).source().len()
                    &&& final(self).position() == old(self).position()
                },
            },
    {
        proof {
            use_type_invariant(&*self);
        }
        let template: &'a str = self.template;
        let len: usize = self.chars.len();
        let start: usize = self.pos;
        if start >= len {
            return None;
        }
        proof {
            lemma_find_pair_is_first(template@, '{', start as int);
        }
        let open: usize = scan_pair(&self.chars, '{', start);
        if open > start {
            self.pos = open;
            Some(TemplateToken::Text(template.substring_char(start, open)))
        } else {
            proof {
                lemma_find_pair_is_first(template@, '}', start + 2);
            }
            let var_start: usize = start + 2;
            let close: usize = scan_pair(&self.chars, '}', var_start);
            if close < len {
                self.pos = close + 2;
                Some(TemplateToken::Var(template.substring_char(var_start, close)))
            } else {
                self.pos = var_start;
                Some(TemplateToken::Text(template.substring_char(start, var_start)))
            }
        }
    }
}

/// Starts a run over the tokens of `template`.
pub fn template_iter<'a>(template: &'a str) -> (iter: TemplateIter<'a>)
    ensures
        iter.source() == template@,
        iter.position() == 0,
{
    TemplateIter { template, chars: chars_of(template), pos: 0 }
}

/// The values of the variables that a template may name.
pub struct TemplateVars {
    values: StringHashMap<String>,
}

impl View for TemplateVars {
    type V = Map<Seq<char>, Seq<char>>;

    closed spec fn view(&self) -> Map<Seq<char>, Seq<char>> {
        self.values@.map_values(|value: String| value@)
    }
}

impl TemplateVars {
    /// No variable at all.
    pub fn new() -> (vars: Self)
        ensures
            vars@ == Map::<Seq<char>, Seq<char>>::empty(),
    {
        TemplateVars { values: StringHashMap::new() }
    }

    /// Gives the variable `name` the value `value`, in place of any value it had.
    pub fn insert(&mut self, name: &str, value: &str)
        ensures
            final(self)@ == old(self)@.insert(name@, value@),
    {
        self.values.insert(name.to_owned(), value.to_owned());
    }

    /// The value of the variable `name`, if it has one.
    pub fn get(&self, name: &str) -> (value: Option<&str>)
        ensures
            match value {
                Some(v) => self@.contains_key(name@) && self@[name@] == v@,
                None => !self@.contains_key(name@),
            },
    {
        match self.values.get(name) {
            Some(value) => Some(value.as_str()),
            None => None,
        }
    }
}

/// Renders `template` with the variables `vars`: text and unknown
/// placeholders as they stand, each known placeholder replaced by its value.
pub fn template_replace(template: &str, vars: TemplateVars) -> (result: String)
    ensures
        result@ == render(template@, vars@),
{
    let mut result = String::new();
    let mut iter = template_iter(template);
    loop
        invariant
            iter.source() == template@,
            0 <= iter.position() <= template@.len(),
            result@ + substitute(tokens_from(template@, iter.position()), vars@) == render(
                template@,
                vars@,
            ),
        ensures
            result@ == render(template@, vars@),
        decreases template@.len() - iter.position(),
    {
        let ghost pos = iter.position();
        match iter.next() {
            Some(token) => {
                proof {
                    lemma_next_token_advances(template@, pos);
                    lemma_substitute_first(
                        token@,
                        tokens_from(template@, iter.position()),
                        vars@,
                    );
                }
                match token {
                    TemplateToken::Text(text) => {
                        result.append(text);
                    },
                    TemplateToken::Var(name) => {
                        match vars.get(name) {
                            Some(value) => {
                                result.append(value);
                            },
                            None => {
                                proof {
                                    reveal_strlit("{{");
                                    reveal_strlit("}}");
                                }
                                result.append("{{");
                                result.append(name);
                                result.append("}}");
                            },
                        }
                    },
                }
            },
            None => {
                break;
            },
        }
    }
    result
}

/// The index of the first pair of `c` at or after `from`.
fn scan_pair(chars: &Vec<char>, c: char, from: usize) -> (found: usize)
    requires
        from <= chars.len(),
    ensures
        found == find_pair(chars@, c, from as int),
{
    let len: usize = chars.len();
    let mut i: usize = from;
    while len - i >= 2
        invariant
            from <= i <= len,
            len == chars.len(),
            find_pair(chars@, c, from as int) == find_pair(chars@, c, i as int),
        decreases len - i,
    {
        if chars[i] == c && chars[i + 1] == c {
            return i;
        }
        i += 1;
    }
    len
}

/// The characters of `s`, in a vector.
fn chars_of(s: &str) -> (chars: Vec<char>)
    ensures
        chars@ == s@,
{
    let mut chars: Vec<char> = Vec::new();
    for c in it: s.chars()
        invariant
            chars@ == it.seq().take(it.index() as int),
    {
        chars.push(c);
    }
    chars
}

/// `find_pair` returns the first pair at or after `from`: it stays within
/// the text, a pair stands where it points, and none stands before.
pub proof fn lemma_find_pair_is_first(s: Seq<char>, c: char, from: int)
    requires
        0 <= from <= s.len(),
    ensures
        from <= find_pair(s, c, from) <= s.len(),
        find_pair(s, c, from) < s.len() ==> pair_at(s, c, find_pair(s, c, from)),
        forall|i: int| from <= i < find_pair(s, c, from) ==> !pair_at(s, c, i),
    decreases s.len() - from,
{
    if from + 1 < s.len() && !(s[from] == c && s[from + 1] == c) {
        lemma_find_pair_is_first(s, c, from + 1);
    }
}

/// An index with no pair before it, where a pair stands or the text ends, is
/// the one that `find_pair` returns.
pub proof fn lemma_find_pair_unique(s: Seq<char>, c: char, from: int, at: int)
    requires
        0 <= from <= at <= s.len(),
        forall|i: int| from <= i < at ==> !pair_at(s, c, i),
        at < s.len() ==> pair_at(s, c, at),
    ensures
        find_pair(s, c, from) == at,
{
    lemma_find_pair_is_first(s, c, from);
}

/// Every token takes at least one character and ends within the template.
pub proof fn lemma_next_token_advances(s: Seq<char>, pos: int)
    requires
        0 <= pos < s.len(),
    ensures
        pos < next_token(s, pos).1 <= s.len(),
{
    lemma_find_pair_is_first(s, '{', pos);
    if find_pair(s, '{', pos) == pos {
        lemma_find_pair_is_first(s, '}', pos + 2);
    }
}

/// Substitution goes token by token.
pub proof fn lemma_substitute_first(
    token: Token,
    rest: Seq<Token>,
    vars: Map<Seq<char>, Seq<char>>,
)
    ensures
        substitute(seq![token] + rest, vars) == expand(token, vars) + substitute(rest, vars),
{
    assert((seq![token] + rest).drop_first() =~= rest);
}

/// Whether none of the placeholders among `tokens` names a variable of `vars`.
pub open spec fn names_none(tokens: Seq<Token>, vars: Map<Seq<char>, Seq<char>>) -> bool {
    forall|i: int|
        0 <= i < tokens.len() ==> (#[trigger] tokens[i] matches Token::Var(name)
            ==> !vars.contains_key(name))
}

/// Tokenizing loses nothing: the tokens from `pos`, each as it was written,
/// spell the template from `pos` to its end.
pub proof fn lemma_tokens_spell_rest(s: Seq<char>, pos: int)
    requires
        0 <= pos <= s.len(),
    ensures
        substitute(tokens_from(s, pos), Map::empty()) == s.subrange(pos, s.len() as int),
    decreases s.len() - pos,
{
    let none = Map::<Seq<char>, Seq<char>>::empty();
    if pos < s.len() {
        let token = next_token(s, pos).0;
        let next = next_token(s, pos).1;
        lemma_find_pair_is_first(s, '{', pos);
        if find_pair(s, '{', pos) == pos {
            lemma_find_pair_is_first(s, '}', pos + 2);
        }
        lemma_tokens_spell_rest(s, next);
        lemma_substitute_first(token, tokens_from(s, next), none);
    } else {
    }
}

/// Where no placeholder names a known variable, the variables do not matter.
pub proof fn lemma_substitute_names_none(tokens: Seq<Token>, vars: Map<Seq<char>, Seq<char>>)
    requires
        names_none(tokens, vars),
    ensures
        substitute(tokens, vars) == substitute(tokens, Map::empty()),
    decreases tokens.len(),
{
    if tokens.len() > 0 {
        let rest = tokens.drop_first();
        lemma_substitute_names_none(rest, vars);
    }
}

/// A template in which no placeholder names a known variable renders to
/// itself: unknown placeholders, unclosed `{{` and plain text all pass through.
pub proof fn lemma_render_unchanged(s: Seq<char>, vars: Map<Seq<char>, Seq<char>>)
    requires
        names_none(tokens(s), vars),
    ensures
        render(s, vars) == s,
{
    lemma_substitute_names_none(tokens(s), vars);
    lemma_tokens_spell_rest(s, 0);
}

/// Whether `part` stands somewhere in `whole`, unbroken.
pub open spec fn occurs_in(part: Seq<char>, whole: Seq<char>) -> bool {
    exists|i: int|
        0 <= i && i + part.len() <= whole.len() && #[trigger] whole.subrange(i, i + part.len())
            == part
}

/// The value of a known variable that some placeholder names stands in the
/// output as it is.
pub proof fn lemma_substitute_shows_value(
    tokens: Seq<Token>,
    vars: Map<Seq<char>, Seq<char>>,
    name: Seq<char>,
)
    requires
        tokens.contains(Token::Var(name)),
        vars.contains_key(name),
    ensures
        occurs_in(vars[name], substitute(tokens, vars)),
    decreases tokens.len(),
{
    let value = vars[name];
    let whole = substitute(tokens, vars);
    let rest = tokens.drop_first();
    let tail = substitute(rest, vars);
    let head = expand(tokens[0], vars);
    if tokens[0] == Token::Var(name) {
        assert(whole.subrange(0, 0 + value.len() as int) =~= value);
    } else {
        let k = choose|k: int| 0 <= k < tokens.len() && tokens[k] == Token::Var(name);
        assert(rest[k - 1] == tokens[k]);
        lemma_substitute_shows_value(rest, vars, name);
        let i = choose|i: int|
            0 <= i && i + value.len() <= tail.len() && #[trigger] tail.subrange(
                i,
                i + value.len(),
            ) == value;
        let j = head.len() as int + i;
        assert(whole.subrange(j, j + value.len()) =~= tail.subrange(i, i + value.len()));
    }
}

/// Whether the placeholder of `name` stands in `s` at `p`.
pub open spec fn placeholder_at(s: Seq<char>, name: Seq<char>, p: int) -> bool {
    &&& 0 <= p
    &&& p + name.len() + 4 <= s.len()
    &&& s.subrange(p, p + name.len() + 4) == placeholder(name)
}

/// Text that holds no `{{` is one token, up to the `{{` behind it or to the
/// end of the template.
pub proof fn lemma_text_token(s: Seq<char>, pos: int, end: int)
    requires
        0 <= pos < end <= s.len(),
        forall|i: int| pos <= i < end ==> !pair_at(s, '{', i),
        end < s.len() ==> pair_at(s, '{', end),
    ensures
        next_token(s, pos) == (Token::Text(s.subrange(pos, end)), end),
{
    lemma_find_pair_unique(s, '{', pos, end);
}

/// A placeholder whose name holds no `}` is one token.
pub proof fn lemma_var_token(s: Seq<char>, name: Seq<char>, pos: int)
    requires
        placeholder_at(s, name, pos),
        forall|i: int| 0 <= i < name.len() ==> name[i] != '}',
    ensures
        next_token(s, pos) == (Token::Var(name), pos + name.len() + 4),
{
    let written = s.subrange(pos, pos + name.len() + 4);
    let close = pos + 2 + name.len();
    assert(s[pos] == written[0] && s[pos + 1] == written[1]);
    assert(s[close] == written[close - pos] && s[close + 1] == written[close - pos + 1]);
    assert forall|i: int| pos + 2 <= i < close implies !pair_at(s, '}', i) by {
        assert(s[i] == written[i - pos]);
    }
    lemma_find_pair_unique(s, '{', pos, pos);
    lemma_find_pair_unique(s, '}', pos + 2, close);
    assert forall|i: int| 0 <= i < name.len() implies s.subrange(pos + 2, close)[i] == name[i] by {
        assert(s[pos + 2 + i] == written[i + 2]);
    }
    assert(s.subrange(pos + 2, close) =~= name);
}

/// The tokens from `pos` hold the token at `pos` and every token that comes
/// after it.
pub proof fn lemma_tokens_from_holds(s: Seq<char>, pos: int)
    requires
        0 <= pos < s.len(),
    ensures
        tokens_from(s, pos).contains(next_token(s, pos).0),
        forall|token: Token|
            tokens_from(s, next_token(s, pos).1).contains(token) ==> tokens_from(s, pos).contains(
                token,
            ),
{
    let first = next_token(s, pos).0;
    let rest = tokens_from(s, next_token(s, pos).1);
    let all = tokens_from(s, pos);
    assert(all[0] == first);
    assert forall|token: Token| rest.contains(token) implies all.contains(token) by {
        let k = choose|k: int| 0 <= k < rest.len() && rest[k] == token;
        assert(all[k + 1] == token);
    }
}

} // verus!
