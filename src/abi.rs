use crate::address::Address;
use crate::u256::U256;
use vstd::prelude::*;

verus! {

/// The static parameter types that deposit and approval calls use.
#[derive(Clone, Copy, Debug, PartialEq, Eq, Structural)]
pub enum ParamKind {
    Address,
    Uint256,
}

/// A typed argument of a contract call.
#[derive(Clone, Copy, Debug, PartialEq, Eq)]
pub enum Token {
    Address(Address),
    Uint(U256),
}

/// Why call data could not be produced.
#[derive(Clone, Copy, Debug, PartialEq, Eq, Structural)]
pub enum AbiError {
    /// The contract interface has no function of the requested name.
    UnknownFunction,
    /// The arguments do not match the function's parameter list.
    InvalidParameters,
}

/// One function of a contract interface: its name, its 4-byte selector and
/// its parameter types in order.
#[derive(Debug)]
pub struct Function {
    pub name: String,
    pub selector: [u8; 4],
    pub inputs: Vec<ParamKind>,
}

/// A contract interface: the functions that can be called on it.
#[derive(Debug)]
pub struct ContractAbi {
    pub functions: Vec<Function>,
}

pub open spec fn token_kind(t: Token) -> ParamKind {
    match t {
        Token::Address(_) => ParamKind::Address,
        Token::Uint(_) => ParamKind::Uint256,
    }
}

/// The 32-byte head word of a static argument.
pub open spec fn token_word(t: Token) -> Seq<u8> {
    match t {
        Token::Address(a) => a.word(),
        Token::Uint(u) => u.be_word(),
    }
}

/// The arguments' words, one after the other.
pub open spec fn encode_words(tokens: Seq<Token>) -> Seq<u8>
    decreases tokens.len(),
{
    if tokens.len() == 0 {
        Seq::empty()
    } else {
        encode_words(tokens.drop_last()) + token_word(tokens.last())
    }
}

/// Whether the arguments have exactly the parameter types given, in order.
pub open spec fn tokens_fit(kinds: Seq<ParamKind>, tokens: Seq<Token>) -> bool {
    &&& kinds.len() == tokens.len()
    &&& forall|i: int| 0 <= i < kinds.len() ==> kinds[i] == token_kind(#[trigger] tokens[i])
}

/// The first function of the list with the given name.
pub open spec fn find_function(fns: Seq<Function>, name: Seq<char>) -> Option<Function>
    decreases fns.len(),
{
    if fns.len() == 0 {
        None
    } else if fns[0].name@ == name {
        Some(fns[0])
    } else {
        find_function(fns.drop_first(), name)
    }
}

impl Function {
    /// The call data for these arguments: the selector, then one word per argument.
    pub open spec fn call_data(self, tokens: Seq<Token>) -> Seq<u8> {
        self.selector@ + encode_words(tokens)
    }

    /// Encodes a call of this function; fails when the arguments do not fit
    /// its parameter list.
    pub fn encode_input(&self, tokens: &Vec<Token>) -> (r: Result<Vec<u8>, AbiError>)
        ensures
            r.is_ok() <==> tokens_fit(self.inputs@, tokens@),
            r matches Ok(data) ==> data@ == self.call_data(tokens@),
            r matches Err(e) ==> e == AbiError::InvalidParameters,
    {
        if self.inputs.len() != tokens.len() {
            return Err(AbiError::InvalidParameters);
        }
        proof {
            vstd::array::array_len_matches_n(&self.selector);
        }
        let mut data: Vec<u8> = Vec::new();
        let mut s: usize = 0;
        while s < 4
            invariant
                0 <= s <= 4,
                self.selector@.len() == 4,
                data@ =~= self.selector@.subrange(0, s as int),
            decreases 4 - s,
        {
            data.push(self.selector[s]);
            s = s + 1;
        }
        let mut i: usize = 0;
        while i < tokens.len()
            invariant
                0 <= i <= tokens@.len(),
                self.inputs@.len() == tokens@.len(),
                forall|j: int|
                    0 <= j < i ==> self.inputs@[j] == token_kind(#[trigger] tokens@[j]),
                data@ == self.selector@ + encode_words(tokens@.subrange(0, i as int)),
            decreases tokens@.len() - i,
        {
            let t = tokens[i];
            let kind_ok = match (self.inputs[i], t) {
                (ParamKind::Address, Token::Address(_)) => true,
                (ParamKind::Uint256, Token::Uint(_)) => true,
                _ => false,
            };
            if !kind_ok {
                return Err(AbiError::InvalidParameters);
            }
            let mut w = match t {
                Token::Address(a) => a.to_word(),
                Token::Uint(u) => u.to_be_word(),
            };
            data.append(&mut w);
            proof {
                let next = tokens@.subrange(0, i + 1);
                assert(next.drop_last() =~= tokens@.subrange(0, i as int));
                assert(next.last() == tokens@[i as int]);
            }
            i = i + 1;
        }
        assert(tokens@.subrange(0, tokens@.len() as int) =~= tokens@);
        Ok(data)
    }
}

impl ContractAbi {
    /// Looks a function up by name; the first one of that name is taken.
    pub fn function(&self, name: &str) -> (r: Result<&Function, AbiError>)
        ensures
            match find_function(self.functions@, name@) {
                Some(f) => r == Ok::<&Function, AbiError>(&f),
                None => r == Err::<&Function, AbiError>(AbiError::UnknownFunction),
            },
    {
        let wanted: String = name.to_owned();
        let mut i: usize = 0;
        assert(self.functions@.subrange(0, self.functions@.len() as int) =~= self.functions@);
        while i < self.functions.len()
            invariant
                0 <= i <= self.functions@.len(),
                wanted@ == name@,
                find_function(self.functions@, name@) == find_function(
                    self.functions@.subrange(i as int, self.functions@.len() as int),
                    name@,
                ),
            decreases self.functions@.len() - i,
        {
            let f = &self.functions[i];
            let rest = Ghost(self.functions@.subrange(i as int, self.functions@.len() as int));
            assert(rest@[0] == self.functions@[i as int]);
            if f.name == wanted {
                return Ok(f);
            }
            assert(rest@.drop_first() =~= self.functions@.subrange(
                i + 1,
                self.functions@.len() as int,
            ));
            i = i + 1;
        }
        Err(AbiError::UnknownFunction)
    }
}

} // verus!
