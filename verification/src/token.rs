//! Tokens, as far as the hashing rules read them.

use vstd::prelude::*;

verus! {

/// One token of a stream: what the rules need to know of it, and no more.
#[derive(Debug, PartialEq, Eq)]
pub enum TokenTree {
    /// A literal, by its text as it stands in the source, quotes and
    /// escapes included.
    Literal(String),
    /// A delimited group, by the stream between its delimiters.
    Group(Vec<TokenTree>),
    /// An identifier, by its name.
    Ident(String),
    /// A single punctuation character.
    Punct(char),
}

/// The mathematical value of a [`TokenTree`]: strings are sequences of
/// characters and a stream is a sequence of token values.
pub enum TokenModel {
    Literal(Seq<char>),
    Group(Seq<TokenModel>),
    Ident(Seq<char>),
    Punct(char),
}

impl View for TokenTree {
    type V = TokenModel;

    open spec fn view(&self) -> TokenModel
        decreases self,
    {
        match self {
            TokenTree::Literal(text) => TokenModel::Literal(text@),
            TokenTree::Group(stream) => TokenModel::Group(
                Seq::new(
                    stream@.len(),
                    |i: int|
                        if 0 <= i < stream@.len() {
                            stream@[i]@
                        } else {
                            TokenModel::Group(Seq::empty())
                        },
                ),
            ),
            TokenTree::Ident(name) => TokenModel::Ident(name@),
            TokenTree::Punct(c) => TokenModel::Punct(*c),
        }
    }
}

impl DeepView for TokenTree {
    type V = TokenModel;

    open spec fn deep_view(&self) -> TokenModel {
        self@
    }
}

/// The value of a group is the group of the values of its stream.
pub proof fn lemma_group_view(stream: Vec<TokenTree>)
    ensures
        TokenTree::Group(stream)@ == TokenModel::Group(stream.deep_view()),
{
    reveal_with_fuel(<TokenTree as View>::view, 2);
    let inner = TokenTree::Group(stream)@->Group_0;
    assert forall|i: int| 0 <= i < inner.len() implies inner[i] == stream.deep_view()[i] by {
        assert(inner[i] == stream@[i]@);
    }
    assert(inner =~= stream.deep_view());
}

} // verus!
