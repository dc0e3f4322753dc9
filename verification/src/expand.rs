//! From a token stream to the hash of the one string literal in it.

use crate::default_hasher::default_hash;
use crate::default_hasher::string_hash_default;
use crate::error::HashError;
use crate::error::HashErrorModel;
use crate::error::UnexpectedToken;
use crate::error::UnexpectedTokenModel;
use crate::fnv::fnv1a;
use crate::fnv::string_hash_fnv1a;
use crate::literal::validate_literal;
use crate::literal::validated;
use crate::token::lemma_group_view;
use crate::token::TokenModel;
use crate::token::TokenTree;
use vstd::prelude::*;
use vstd::utf8::encode_utf8;

verus! {

/// What the first token of a stream yields by itself: a literal yields its
/// validated content, a group yields what its own stream yields, however
/// deep the groups are nested, and an identifier or a punctuation character
/// is refused.
pub open spec fn first_token_content(token: TokenModel) -> Result<Seq<char>, HashErrorModel>
    decreases token, 0int,
{
    match token {
        TokenModel::Literal(text) => validated(text),
        TokenModel::Group(stream) => literal_content(stream),
        TokenModel::Ident(name) => Err(
            HashErrorModel::UnexpectedTokenKind(UnexpectedTokenModel::Ident(name)),
        ),
        TokenModel::Punct(c) => Err(
            HashErrorModel::UnexpectedTokenKind(UnexpectedTokenModel::Punct(c)),
        ),
    }
}

/// The string content that a stream stands for, or the reason why it
/// stands for none.
///
/// An empty stream is a missing argument. Otherwise the first token is
/// examined, and what is wrong with it is reported before anything else. A
/// stream whose first token is in order must hold no second token.
pub open spec fn literal_content(tokens: Seq<TokenModel>) -> Result<Seq<char>, HashErrorModel>
    decreases tokens, 1int,
{
    if tokens.len() == 0 {
        Err(HashErrorModel::MissingArgument)
    } else {
        let first = first_token_content(tokens[0]);
        if first is Ok && tokens.len() > 1 {
            Err(HashErrorModel::TooManyArguments)
        } else {
            first
        }
    }
}

/// The FNV-1a hash that a stream stands for: that of the UTF-8 bytes of its
/// content.
pub open spec fn stream_fnv1a(tokens: Seq<TokenModel>) -> Result<u32, HashErrorModel> {
    match literal_content(tokens) {
        Ok(content) => Ok(fnv1a(encode_utf8(content))),
        Err(error) => Err(error),
    }
}

/// The default-hasher digest that a stream stands for: that of its content.
pub open spec fn stream_default_hash(tokens: Seq<TokenModel>) -> Result<u64, HashErrorModel> {
    match literal_content(tokens) {
        Ok(content) => Ok(default_hash(content)),
        Err(error) => Err(error),
    }
}

/// Reduces `item` to the content of its one string literal and applies
/// `hash` to it.
///
/// The hash is handed the content of the stream; whatever it returns for
/// that content is returned. Where the stream has no content the error says
/// why, and the error is that of [`literal_content`].
pub fn str_hash_impl<H, F: Fn(&str) -> H + Copy>(item: &Vec<TokenTree>, hash: F) -> (result:
    Result<H, HashError>)
    requires
        forall|content: &str| call_requires(hash, (content,)),
    ensures
        match result {
            Ok(value) => exists|content: &str|
                literal_content(item.deep_view()) == Ok::<Seq<char>, HashErrorModel>(content@)
                    && call_ensures(hash, (content,), value),
            Err(error) => literal_content(item.deep_view()) == Err::<Seq<char>, HashErrorModel>(
                error@,
            ),
        },
    decreases item,
{
    if item.len() == 0 {
        return Err(HashError::MissingArgument);
    }
    assert(item.deep_view()[0] == item@[0]@);
    let value = match &item[0] {
        TokenTree::Literal(text) => {
            match validate_literal(text.as_str()) {
                Ok(content) => hash(content),
                Err(error) => {
                    return Err(error);
                },
            }
        },
        TokenTree::Group(stream) => {
            proof {
                lemma_group_view(*stream);
            }
            match str_hash_impl(stream, hash) {
                Ok(value) => value,
                Err(error) => {
                    return Err(error);
                },
            }
        },
        TokenTree::Ident(name) => {
            return Err(HashError::UnexpectedTokenKind(UnexpectedToken::Ident(name.clone())));
        },
        TokenTree::Punct(c) => {
            return Err(HashError::UnexpectedTokenKind(UnexpectedToken::Punct(*c)));
        },
    };
    if item.len() > 1 {
        return Err(HashError::TooManyArguments);
    }
    Ok(value)
}

/// Hashes the one string literal of `item` to a `u64` with the standard
/// library's default hasher.
pub fn str_hash_default(item: &Vec<TokenTree>) -> (result: Result<u64, HashError>)
    ensures
        match result {
            Ok(hash) => stream_default_hash(item.deep_view()) == Ok::<u64, HashErrorModel>(hash),
            Err(error) => stream_default_hash(item.deep_view()) == Err::<u64, HashErrorModel>(
                error@,
            ),
        },
{
    str_hash_impl(item, string_hash_default)
}

/// Hashes the one string literal of `item` to a `u32` with FNV-1a.
pub fn str_hash_fnv1a(item: &Vec<TokenTree>) -> (result: Result<u32, HashError>)
    ensures
        match result {
            Ok(hash) => stream_fnv1a(item.deep_view()) == Ok::<u32, HashErrorModel>(hash),
            Err(error) => stream_fnv1a(item.deep_view()) == Err::<u32, HashErrorModel>(error@),
        },
{
    str_hash_impl(item, string_hash_fnv1a)
}

/// A stream that is one group stands for what the stream inside the group
/// stands for: the delimiters are transparent.
pub proof fn lemma_group_is_transparent(stream: Seq<TokenModel>)
    ensures
        literal_content(seq![TokenModel::Group(stream)]) == literal_content(stream),
        stream_fnv1a(seq![TokenModel::Group(stream)]) == stream_fnv1a(stream),
        stream_default_hash(seq![TokenModel::Group(stream)]) == stream_default_hash(stream),
{
}

/// A stream that begins with an identifier is refused for that identifier,
/// whatever follows it.
pub proof fn lemma_identifier_refused(tokens: Seq<TokenModel>)
    requires
        tokens.len() > 0,
        tokens[0] is Ident,
    ensures
        literal_content(tokens) == Err::<Seq<char>, HashErrorModel>(
            HashErrorModel::UnexpectedTokenKind(UnexpectedTokenModel::Ident(tokens[0]->Ident_0)),
        ),
{
}

/// A stream that begins with a punctuation character is refused for that
/// character, whatever follows it.
pub proof fn lemma_punctuation_refused(tokens: Seq<TokenModel>)
    requires
        tokens.len() > 0,
        tokens[0] is Punct,
    ensures
        literal_content(tokens) == Err::<Seq<char>, HashErrorModel>(
            HashErrorModel::UnexpectedTokenKind(UnexpectedTokenModel::Punct(tokens[0]->Punct_0)),
        ),
{
}

/// A stream of two or more tokens whose first token is in order is refused
/// for holding too many.
pub proof fn lemma_surplus_tokens_refused(tokens: Seq<TokenModel>)
    requires
        tokens.len() > 1,
        first_token_content(tokens[0]) is Ok,
    ensures
        literal_content(tokens) == Err::<Seq<char>, HashErrorModel>(
            HashErrorModel::TooManyArguments,
        ),
{
}

/// Two literals in a row, the first of them a well-formed quoted string, are
/// one too many.
pub proof fn lemma_two_literals_refused(first: Seq<char>, second: Seq<char>)
    requires
        validated(first) is Ok,
    ensures
        literal_content(seq![TokenModel::Literal(first), TokenModel::Literal(second)]) == Err::<
            Seq<char>,
            HashErrorModel,
        >(HashErrorModel::TooManyArguments),
{
}

/// A stream stands for a content only if it holds exactly one token.
pub proof fn lemma_content_needs_one_token(tokens: Seq<TokenModel>)
    ensures
        literal_content(tokens) is Ok ==> tokens.len() == 1,
        tokens.len() == 0 ==> literal_content(tokens) == Err::<Seq<char>, HashErrorModel>(
            HashErrorModel::MissingArgument,
        ),
{
}

} // verus!
