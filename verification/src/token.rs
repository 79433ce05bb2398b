//! Tokens of the source language and the cursor the parser reads them from.

use vstd::prelude::*;

verus! {

/// Whether chains of one operator group to the left or to the right.
#[derive(Clone, Copy, Debug, PartialEq, Eq, Structural)]
pub enum Associativity {
    Right,
    Left,
}

/// Parsing properties of an operator: its precedence and associativity.
#[derive(Clone, Copy, Debug, PartialEq, Eq, Structural)]
pub struct Property {
    pub precedence: u32,
    pub associativity: Associativity,
}

/// One lexeme of the source language.
#[derive(Debug, PartialEq)]
pub enum Token {
    Type(String),
    ParenS,
    ParenE,
    BlockS,
    BlockE,
    SquareS,
    SquareE,
    Semi,
    Comma,
    Return,
    Num(String),
    Op(String, Property),
    Ide(String),
}

/// The mathematical value of a `Token`: the same shape over character
/// sequences.
pub enum TokenView {
    Type(Seq<char>),
    ParenS,
    ParenE,
    BlockS,
    BlockE,
    SquareS,
    SquareE,
    Semi,
    Comma,
    Return,
    Num(Seq<char>),
    Op(Seq<char>, Property),
    Ide(Seq<char>),
}

impl View for Token {
    type V = TokenView;

    open spec fn view(&self) -> TokenView {
        match self {
            Token::Type(s) => TokenView::Type(s@),
            Token::ParenS => TokenView::ParenS,
            Token::ParenE => TokenView::ParenE,
            Token::BlockS => TokenView::BlockS,
            Token::BlockE => TokenView::BlockE,
            Token::SquareS => TokenView::SquareS,
            Token::SquareE => TokenView::SquareE,
            Token::Semi => TokenView::Semi,
            Token::Comma => TokenView::Comma,
            Token::Return => TokenView::Return,
            Token::Num(s) => TokenView::Num(s@),
            Token::Op(s, p) => TokenView::Op(s@, *p),
            Token::Ide(s) => TokenView::Ide(s@),
        }
    }
}

impl Clone for Token {
    fn clone(&self) -> (res: Self)
        ensures
            res@ == self@,
    {
        match self {
            Token::Type(s) => Token::Type(s.clone()),
            Token::ParenS => Token::ParenS,
            Token::ParenE => Token::ParenE,
            Token::BlockS => Token::BlockS,
            Token::BlockE => Token::BlockE,
            Token::SquareS => Token::SquareS,
            Token::SquareE => Token::SquareE,
            Token::Semi => Token::Semi,
            Token::Comma => Token::Comma,
            Token::Return => Token::Return,
            Token::Num(s) => Token::Num(s.clone()),
            Token::Op(s, p) => Token::Op(s.clone(), *p),
            Token::Ide(s) => Token::Ide(s.clone()),
        }
    }
}

/// The operator table of the language, as a function of the operator's one
/// symbol character.
pub open spec fn spec_char_property(c: char) -> Option<Property> {
    if c == '=' {
        Some(Property { precedence: 2, associativity: Associativity::Right })
    } else if c == '+' {
        Some(Property { precedence: 12, associativity: Associativity::Left })
    } else if c == '-' {
        Some(Property { precedence: 12, associativity: Associativity::Left })
    } else if c == '*' {
        Some(Property { precedence: 13, associativity: Associativity::Left })
    } else if c == '/' {
        Some(Property { precedence: 13, associativity: Associativity::Left })
    } else if c == '&' {
        Some(Property { precedence: 15, associativity: Associativity::Left })
    } else {
        None
    }
}

/// The operator table over a whole operator spelling: only the six one
/// character operators have an entry.
pub open spec fn spec_op_property(op: Seq<char>) -> Option<Property> {
    if op.len() == 1 {
        spec_char_property(op[0])
    } else {
        None
    }
}

/// Looks an operator up in the fixed operator table. A missing entry is a
/// contract violation of the caller, not a recoverable error: every operator
/// token the tokenizer produces has one.
pub fn get_property(op: &String) -> (r: Property)
    requires
        spec_op_property(op@) is Some,
    ensures
        Some(r) == spec_op_property(op@),
{
    let c: char = op.as_str().get_char(0);
    if c == '=' {
        Property { precedence: 2, associativity: Associativity::Right }
    } else if c == '+' {
        Property { precedence: 12, associativity: Associativity::Left }
    } else if c == '-' {
        Property { precedence: 12, associativity: Associativity::Left }
    } else if c == '*' {
        Property { precedence: 13, associativity: Associativity::Left }
    } else if c == '/' {
        Property { precedence: 13, associativity: Associativity::Left }
    } else {
        Property { precedence: 15, associativity: Associativity::Left }
    }
}

/// Everything that can go wrong while parsing: a required token shape is
/// absent at the cursor, or a literal does not fit the integer type.
#[derive(Clone, Copy, Debug, PartialEq, Eq, Structural)]
pub enum ParseError {
    ExpectedType,
    ExpectedIdentifier,
    ExpectedOperator,
    ExpectedSemi,
    ExpectedBlockS,
    ExpectedBlockE,
    ExpectedParenS,
    ExpectedParenE,
    ExpectedSquareS,
    ExpectedSquareE,
    ExpectedReturn,
    ExpectedPrimary,
    ExpectedDeclaration,
    ArraySizeNotLiteral,
    NumberTooLarge,
    UnexpectedEnd,
}

/// A one-shot cursor over the token sequence produced by the tokenizer.
#[derive(Debug, PartialEq, Clone)]
pub struct Tokens {
    pub tokens: Vec<Token>,
}

impl View for Tokens {
    type V = Seq<TokenView>;

    open spec fn view(&self) -> Seq<TokenView> {
        self.tokens@.map_values(|t: Token| t@)
    }
}

impl Tokens {
    /// Removes and returns the first unconsumed token.
    pub fn pop(&mut self) -> (r: Option<Token>)
        ensures
            old(self)@.len() == 0 ==> r is None && final(self)@ == old(self)@,
            old(self)@.len() > 0 ==> (r matches Some(t) && t@ == old(self)@[0]
                && final(self)@ == old(self)@.drop_first()),
    {
        if self.tokens.len() == 0 {
            None
        } else {
            let t = self.tokens.remove(0);
            proof {
                assert(self@ =~= old(self)@.drop_first());
            }
            Some(t)
        }
    }

    /// Returns the token `num` positions ahead without consuming anything.
    pub fn peek(&self, num: usize) -> (r: Option<Token>)
        ensures
            match r {
                Some(t) => num < self@.len() && t@ == self@[num as int],
                None => num >= self@.len(),
            },
    {
        if num < self.tokens.len() {
            Some(self.tokens[num].clone())
        } else {
            None
        }
    }

    /// Returns the identifier under the cursor without consuming it.
    pub fn expect_identifier(&self) -> (r: Result<String, ParseError>)
        ensures
            match r {
                Ok(s) => self@.len() > 0 && (self@[0] matches TokenView::Ide(id) && s@ == id),
                Err(e) => e == ParseError::ExpectedIdentifier
                    && !(self@.len() > 0 && self@[0] is Ide),
            },
    {
        match self.peek(0) {
            Some(Token::Ide(identifier)) => Ok(identifier),
            _ => Err(ParseError::ExpectedIdentifier),
        }
    }

    /// Consumes the identifier under the cursor and returns its spelling.
    pub fn consume_identifier(&mut self) -> (r: Result<String, ParseError>)
        ensures
            match r {
                Ok(s) => old(self)@.len() > 0 && (old(self)@[0] matches TokenView::Ide(id)
                    && s@ == id) && final(self)@ == old(self)@.drop_first(),
                Err(e) => e == ParseError::ExpectedIdentifier
                    && !(old(self)@.len() > 0 && old(self)@[0] is Ide)
                    && final(self)@ == old(self)@,
            },
    {
        match self.peek(0) {
            Some(Token::Ide(identifier)) => {
                self.pop();
                Ok(identifier)
            },
            _ => Err(ParseError::ExpectedIdentifier),
        }
    }

    /// Consumes the operator under the cursor and returns its spelling and
    /// its precedence/associativity property.
    pub fn consume_operator(&mut self) -> (r: Result<(String, Property), ParseError>)
        ensures
            match r {
                Ok(sp) => old(self)@.len() > 0
                    && (old(self)@[0] matches TokenView::Op(s, p)
                        && sp.0@ == s && sp.1 == p)
                    && final(self)@ == old(self)@.drop_first(),
                Err(e) => e == ParseError::ExpectedOperator
                    && !(old(self)@.len() > 0 && old(self)@[0] is Op)
                    && final(self)@ == old(self)@,
            },
    {
        match self.peek(0) {
            Some(Token::Op(op, property)) => {
                self.pop();
                Ok((op, property))
            },
            _ => Err(ParseError::ExpectedOperator),
        }
    }

    /// Consumes the statement terminator `;` under the cursor.
    pub fn consume_semi(&mut self) -> (r: Result<Token, ParseError>)
        ensures
            match r {
                Ok(t) => old(self)@.len() > 0 && old(self)@[0] is Semi
                    && t@ == TokenView::Semi && final(self)@ == old(self)@.drop_first(),
                Err(e) => e == ParseError::ExpectedSemi
                    && !(old(self)@.len() > 0 && old(self)@[0] is Semi)
                    && final(self)@ == old(self)@,
            },
    {
        match self.peek(0) {
            Some(Token::Semi) => {
                self.pop();
                Ok(Token::Semi)
            },
            _ => Err(ParseError::ExpectedSemi),
        }
    }

    /// Consumes the block opener `{` under the cursor.
    pub fn consume_block_s(&mut self) -> (r: Result<Token, ParseError>)
        ensures
            match r {
                Ok(t) => old(self)@.len() > 0 && old(self)@[0] is BlockS
                    && t@ == TokenView::BlockS && final(self)@ == old(self)@.drop_first(),
                Err(e) => e == ParseError::ExpectedBlockS
                    && !(old(self)@.len() > 0 && old(self)@[0] is BlockS)
                    && final(self)@ == old(self)@,
            },
    {
        match self.peek(0) {
            Some(Token::BlockS) => {
                self.pop();
                Ok(Token::BlockS)
            },
            _ => Err(ParseError::ExpectedBlockS),
        }
    }

    /// Consumes the block closer `}` under the cursor.
    pub fn consume_block_e(&mut self) -> (r: Result<Token, ParseError>)
        ensures
            match r {
                Ok(t) => old(self)@.len() > 0 && old(self)@[0] is BlockE
                    && t@ == TokenView::BlockE && final(self)@ == old(self)@.drop_first(),
                Err(e) => e == ParseError::ExpectedBlockE
                    && !(old(self)@.len() > 0 && old(self)@[0] is BlockE)
                    && final(self)@ == old(self)@,
            },
    {
        match self.peek(0) {
            Some(Token::BlockE) => {
                self.pop();
                Ok(Token::BlockE)
            },
            _ => Err(ParseError::ExpectedBlockE),
        }
    }

    /// Consumes the parenthesis opener `(` under the cursor.
    pub fn consume_paren_s(&mut self) -> (r: Result<Token, ParseError>)
        ensures
            match r {
                Ok(t) => old(self)@.len() > 0 && old(self)@[0] is ParenS
                    && t@ == TokenView::ParenS && final(self)@ == old(self)@.drop_first(),
                Err(e) => e == ParseError::ExpectedParenS
                    && !(old(self)@.len() > 0 && old(self)@[0] is ParenS)
                    && final(self)@ == old(self)@,
            },
    {
        match self.peek(0) {
            Some(Token::ParenS) => {
                self.pop();
                Ok(Token::ParenS)
            },
            _ => Err(ParseError::ExpectedParenS),
        }
    }

    /// Consumes the parenthesis closer `)` under the cursor.
    pub fn consume_paren_e(&mut self) -> (r: Result<Token, ParseError>)
        ensures
            match r {
                Ok(t) => old(self)@.len() > 0 && old(self)@[0] is ParenE
                    && t@ == TokenView::ParenE && final(self)@ == old(self)@.drop_first(),
                Err(e) => e == ParseError::ExpectedParenE
                    && !(old(self)@.len() > 0 && old(self)@[0] is ParenE)
                    && final(self)@ == old(self)@,
            },
    {
        match self.peek(0) {
            Some(Token::ParenE) => {
                self.pop();
                Ok(Token::ParenE)
            },
            _ => Err(ParseError::ExpectedParenE),
        }
    }

    /// Consumes the bracket opener `[` under the cursor.
    pub fn consume_square_s(&mut self) -> (r: Result<Token, ParseError>)
        ensures
            match r {
                Ok(t) => old(self)@.len() > 0 && old(self)@[0] is SquareS
                    && t@ == TokenView::SquareS && final(self)@ == old(self)@.drop_first(),
                Err(e) => e == ParseError::ExpectedSquareS
                    && !(old(self)@.len() > 0 && old(self)@[0] is SquareS)
                    && final(self)@ == old(self)@,
            },
    {
        match self.peek(0) {
            Some(Token::SquareS) => {
                self.pop();
                Ok(Token::SquareS)
            },
            _ => Err(ParseError::ExpectedSquareS),
        }
    }

    /// Consumes the bracket closer `]` under the cursor.
    pub fn consume_square_e(&mut self) -> (r: Result<Token, ParseError>)
        ensures
            match r {
                Ok(t) => old(self)@.len() > 0 && old(self)@[0] is SquareE
                    && t@ == TokenView::SquareE && final(self)@ == old(self)@.drop_first(),
                Err(e) => e == ParseError::ExpectedSquareE
                    && !(old(self)@.len() > 0 && old(self)@[0] is SquareE)
                    && final(self)@ == old(self)@,
            },
    {
        match self.peek(0) {
            Some(Token::SquareE) => {
                self.pop();
                Ok(Token::SquareE)
            },
            _ => Err(ParseError::ExpectedSquareE),
        }
    }

    /// Consumes the type keyword under the cursor and returns its spelling.
    pub fn consume_type(&mut self) -> (r: Result<String, ParseError>)
        ensures
            match r {
                Ok(s) => old(self)@.len() > 0 && (old(self)@[0] matches TokenView::Type(ty)
                    && s@ == ty) && final(self)@ == old(self)@.drop_first(),
                Err(e) => e == ParseError::ExpectedType
                    && !(old(self)@.len() > 0 && old(self)@[0] is Type)
                    && final(self)@ == old(self)@,
            },
    {
        match self.peek(0) {
            Some(Token::Type(typ)) => {
                self.pop();
                Ok(typ)
            },
            _ => Err(ParseError::ExpectedType),
        }
    }

    /// Consumes the `return` keyword under the cursor.
    pub fn consume_return(&mut self) -> (r: Result<Token, ParseError>)
        ensures
            match r {
                Ok(t) => old(self)@.len() > 0 && old(self)@[0] is Return
                    && t@ == TokenView::Return && final(self)@ == old(self)@.drop_first(),
                Err(e) => e == ParseError::ExpectedReturn
                    && !(old(self)@.len() > 0 && old(self)@[0] is Return)
                    && final(self)@ == old(self)@,
            },
    {
        match self.peek(0) {
            Some(Token::Return) => {
                self.pop();
                Ok(Token::Return)
            },
            _ => Err(ParseError::ExpectedReturn),
        }
    }
}

} // verus!
