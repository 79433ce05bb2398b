//! The tokenizer: a maximal munch scan over the source characters. Digit
//! runs become numeric literals, word runs become keywords or identifiers,
//! single characters become punctuation and operators, and anything else is
//! silently skipped.

use vstd::prelude::*;
use crate::token::{spec_char_property, get_property, Token, TokenView, Tokens};

verus! {

/// A character that may continue an identifier: an ASCII letter, a digit,
/// or an underscore.
pub open spec fn spec_is_word_char(c: char) -> bool {
    ('a' <= c && c <= 'z') || ('A' <= c && c <= 'Z') || ('0' <= c && c <= '9') || c == '_'
}

/// A decimal digit character.
pub open spec fn spec_is_digit_char(c: char) -> bool {
    '0' <= c && c <= '9'
}

/// The end of the digit run that starts at `i`.
pub open spec fn spec_digit_end(s: Seq<char>, i: int) -> int
    decreases s.len() - i,
{
    if 0 <= i < s.len() && spec_is_digit_char(s[i]) {
        spec_digit_end(s, i + 1)
    } else {
        i
    }
}

/// The end of the word run that starts at `i`.
pub open spec fn spec_word_end(s: Seq<char>, i: int) -> int
    decreases s.len() - i,
{
    if 0 <= i < s.len() && spec_is_word_char(s[i]) {
        spec_word_end(s, i + 1)
    } else {
        i
    }
}

/// The keyword spelling `int`.
pub open spec fn spec_kw_int() -> Seq<char> {
    seq!['i', 'n', 't']
}

/// The keyword spelling `return`.
pub open spec fn spec_kw_return() -> Seq<char> {
    seq!['r', 'e', 't', 'u', 'r', 'n']
}

/// The token a word run denotes: one of the two keywords, or an identifier.
pub open spec fn spec_word_token(w: Seq<char>) -> TokenView {
    if w == spec_kw_int() {
        TokenView::Type(w)
    } else if w == spec_kw_return() {
        TokenView::Return
    } else {
        TokenView::Ide(w)
    }
}

/// The token sequence of the source text from position `i` on. The bound
/// guards only serve termination; the scanner proves they always hold.
pub open spec fn spec_tokenize_at(s: Seq<char>, i: int) -> Seq<TokenView>
    decreases s.len() - i,
{
    if !(0 <= i < s.len()) {
        Seq::empty()
    } else {
        let c = s[i];
        if c == '(' {
            seq![TokenView::ParenS] + spec_tokenize_at(s, i + 1)
        } else if c == ')' {
            seq![TokenView::ParenE] + spec_tokenize_at(s, i + 1)
        } else if c == '{' {
            seq![TokenView::BlockS] + spec_tokenize_at(s, i + 1)
        } else if c == '}' {
            seq![TokenView::BlockE] + spec_tokenize_at(s, i + 1)
        } else if c == '[' {
            seq![TokenView::SquareS] + spec_tokenize_at(s, i + 1)
        } else if c == ']' {
            seq![TokenView::SquareE] + spec_tokenize_at(s, i + 1)
        } else if c == ';' {
            seq![TokenView::Semi] + spec_tokenize_at(s, i + 1)
        } else if c == ',' {
            seq![TokenView::Comma] + spec_tokenize_at(s, i + 1)
        } else {
            match spec_char_property(c) {
                Some(p) => seq![TokenView::Op(seq![c], p)] + spec_tokenize_at(s, i + 1),
                None => {
                    if spec_is_digit_char(c) {
                        let j = spec_digit_end(s, i + 1);
                        if i < j <= s.len() {
                            seq![TokenView::Num(s.subrange(i, j))] + spec_tokenize_at(s, j)
                        } else {
                            Seq::empty()
                        }
                    } else if spec_is_word_char(c) {
                        let j = spec_word_end(s, i + 1);
                        if i < j <= s.len() {
                            seq![spec_word_token(s.subrange(i, j))] + spec_tokenize_at(s, j)
                        } else {
                            Seq::empty()
                        }
                    } else {
                        spec_tokenize_at(s, i + 1)
                    }
                },
            }
        }
    }
}

/// The token sequence of a whole source text.
pub open spec fn spec_tokenize(s: Seq<char>) -> Seq<TokenView> {
    spec_tokenize_at(s, 0)
}

fn char_is_digit(c: char) -> (r: bool)
    ensures
        r == spec_is_digit_char(c),
{
    '0' <= c && c <= '9'
}

fn char_is_word(c: char) -> (r: bool)
    ensures
        r == spec_is_word_char(c),
{
    ('a' <= c && c <= 'z') || ('A' <= c && c <= 'Z') || ('0' <= c && c <= '9') || c == '_'
}

/// One scan step: when the tokens from position `i` are one token followed
/// by the tokens from position `j`, appending that token to what has been
/// scanned keeps the whole token sequence.
proof fn lemma_tokenize_step(s: Seq<char>, pre: Seq<TokenView>, i: int, j: int, tok: TokenView)
    requires
        spec_tokenize(s) == pre + spec_tokenize_at(s, i),
        spec_tokenize_at(s, i) == seq![tok] + spec_tokenize_at(s, j),
    ensures
        spec_tokenize(s) == pre.push(tok) + spec_tokenize_at(s, j),
{
    assert(pre + (seq![tok] + spec_tokenize_at(s, j)) =~= pre.push(tok) + spec_tokenize_at(s, j));
}

/// The tokenizer. It holds no state: the scanner is a fixed function of the
/// source text.
pub struct Lexer {}

impl Lexer {
    /// Makes a tokenizer.
    pub fn new() -> (r: Lexer)
        ensures
            r == (Lexer {  }),
    {
        Lexer {  }
    }

    /// Tokenizes a whole source text.
    pub fn lex(&self, code: String) -> (r: Tokens)
        ensures
            r@ == spec_tokenize(code@),
    {
        self.tokenize(code)
    }

    #[verifier::rlimit(100)]
    fn tokenize(&self, code: String) -> (r: Tokens)
        ensures
            r@ == spec_tokenize(code@),
    {
        let s = code.as_str();
        let n = s.unicode_len();
        let mut tokens: Vec<Token> = Vec::new();
        let mut i: usize = 0;
        proof {
            assert(tokens@.map_values(|t: Token| t@) =~= Seq::<TokenView>::empty());
        }
        while i < n
            invariant
                n == code@.len(),
                s@ == code@,
                0 <= i <= n,
                spec_tokenize(code@) == tokens@.map_values(|t: Token| t@) + spec_tokenize_at(
                    code@,
                    i as int,
                ),
            decreases n - i,
        {
            let ghost pre = tokens@.map_values(|t: Token| t@);
            let ghost i0 = i as int;
            let c = s.get_char(i);
            if c == '(' || c == ')' || c == '{' || c == '}' || c == '[' || c == ']' || c == ';'
                || c == ',' {
                let tok = if c == '(' {
                    Token::ParenS
                } else if c == ')' {
                    Token::ParenE
                } else if c == '{' {
                    Token::BlockS
                } else if c == '}' {
                    Token::BlockE
                } else if c == '[' {
                    Token::SquareS
                } else if c == ']' {
                    Token::SquareE
                } else if c == ';' {
                    Token::Semi
                } else {
                    Token::Comma
                };
                proof {
                    assert(spec_tokenize_at(code@, i0) == seq![tok@] + spec_tokenize_at(
                        code@,
                        i0 + 1,
                    ));
                    lemma_tokenize_step(code@, pre, i0, i0 + 1, tok@);
                }
                tokens.push(tok);
                proof {
                    assert(tokens@.map_values(|t: Token| t@) =~= pre.push(
                        spec_tokenize_at(code@, i0)[0],
                    ));
                }
                i = i + 1;
            } else if c == '=' || c == '+' || c == '-' || c == '*' || c == '/' || c == '&' {
                let op = s.substring_char(i, i + 1).to_owned();
                proof {
                    assert(op@ =~= seq![c]);
                }
                let property = get_property(&op);
                let tok = Token::Op(op, property);
                proof {
                    assert(spec_tokenize_at(code@, i0) == seq![tok@] + spec_tokenize_at(
                        code@,
                        i0 + 1,
                    ));
                    lemma_tokenize_step(code@, pre, i0, i0 + 1, tok@);
                }
                tokens.push(tok);
                proof {
                    assert(tokens@.map_values(|t: Token| t@) =~= pre.push(
                        spec_tokenize_at(code@, i0)[0],
                    ));
                }
                i = i + 1;
            } else if char_is_digit(c) {
                let mut j = i + 1;
                while j < n && char_is_digit(s.get_char(j))
                    invariant
                        n == code@.len(),
                        s@ == code@,
                        i < j <= n,
                        i0 == i as int,
                        spec_digit_end(code@, i0 + 1) == spec_digit_end(code@, j as int),
                    decreases n - j,
                {
                    j = j + 1;
                }
                proof {
                    assert(spec_digit_end(code@, j as int) == j as int);
                }
                let num = s.substring_char(i, j).to_owned();
                let tok = Token::Num(num);
                proof {
                    assert(spec_tokenize_at(code@, i0) == seq![tok@] + spec_tokenize_at(
                        code@,
                        j as int,
                    ));
                    lemma_tokenize_step(code@, pre, i0, j as int, tok@);
                }
                tokens.push(tok);
                proof {
                    assert(tokens@.map_values(|t: Token| t@) =~= pre.push(
                        spec_tokenize_at(code@, i0)[0],
                    ));
                }
                i = j;
            } else if char_is_word(c) {
                let mut j = i + 1;
                while j < n && char_is_word(s.get_char(j))
                    invariant
                        n == code@.len(),
                        s@ == code@,
                        i < j <= n,
                        i0 == i as int,
                        spec_word_end(code@, i0 + 1) == spec_word_end(code@, j as int),
                    decreases n - j,
                {
                    j = j + 1;
                }
                proof {
                    assert(spec_word_end(code@, j as int) == j as int);
                }
                let w = s.substring_char(i, j).to_owned();
                let len = j - i;
                let is_int: bool = len == 3 && s.get_char(i) == 'i' && s.get_char(i + 1) == 'n'
                    && s.get_char(i + 2) == 't';
                let is_return: bool = len == 6 && s.get_char(i) == 'r' && s.get_char(i + 1) == 'e'
                    && s.get_char(i + 2) == 't' && s.get_char(i + 3) == 'u' && s.get_char(i + 4)
                    == 'r' && s.get_char(i + 5) == 'n';
                proof {
                    assert(spec_kw_int().len() == 3 && spec_kw_int()[0] == 'i' && spec_kw_int()[1]
                        == 'n' && spec_kw_int()[2] == 't');
                    assert(spec_kw_return().len() == 6 && spec_kw_return()[0] == 'r'
                        && spec_kw_return()[1] == 'e' && spec_kw_return()[2] == 't'
                        && spec_kw_return()[3] == 'u' && spec_kw_return()[4] == 'r'
                        && spec_kw_return()[5] == 'n');
                    assert(w@.len() == j - i);
                    assert(forall|k: int| 0 <= k < w@.len() ==> w@[k] == code@[i0 + k]);
                    if is_int {
                        assert(w@ =~= spec_kw_int());
                    } else {
                        assert(w@ != spec_kw_int());
                    }
                    if is_return {
                        assert(w@ =~= spec_kw_return());
                    } else {
                        assert(w@ != spec_kw_return());
                    }
                }
                let tok = if is_int {
                    Token::Type(w)
                } else if is_return {
                    Token::Return
                } else {
                    Token::Ide(w)
                };
                proof {
                    assert(tok@ == spec_word_token(code@.subrange(i0, j as int)));
                    assert(spec_tokenize_at(code@, i0) == seq![tok@] + spec_tokenize_at(
                        code@,
                        j as int,
                    ));
                    lemma_tokenize_step(code@, pre, i0, j as int, tok@);
                }
                tokens.push(tok);
                proof {
                    assert(tokens@.map_values(|t: Token| t@) =~= pre.push(
                        spec_tokenize_at(code@, i0)[0],
                    ));
                }
                i = j;
            } else {
                proof {
                    assert(spec_tokenize_at(code@, i0) == spec_tokenize_at(code@, i0 + 1));
                }
                i = i + 1;
            }
        }
        Tokens { tokens }
    }
}

} // verus!
