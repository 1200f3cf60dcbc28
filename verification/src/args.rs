//! The options of an override: `name = "<symbol>"` and `allow_reentry`,
//! separated by commas.
use vstd::prelude::*;
use vstd::string::*;
use crate::text::same_text;

verus! {

/// The options of an override.
#[derive(Debug, PartialEq, Eq)]
pub struct MockFfiArgs {
    /// Whether a thread may enter the override while it is already in it.
    pub allow_reentry: bool,
    /// The exported symbol, where it is not the function's own name.
    pub name: Option<String>,
}

/// A token as it is written.
#[derive(Debug, PartialEq, Eq)]
pub enum Token {
    /// An identifier or a keyword.
    Ident(String),
    /// One character of punctuation.
    Punct(char),
    /// A literal, as source text.
    Literal(String),
    /// A group of tokens in brackets of any kind.
    Group,
}

/// A token as far as the options tell tokens apart.
#[derive(Debug, PartialEq, Eq)]
pub enum Word {
    /// An identifier or a keyword.
    Ident(String),
    /// One character of punctuation.
    Punct(char),
    /// A string literal, with the text that it denotes.
    Str(String),
    /// Any other token.
    Other,
}

/// What is wrong with the options.
#[derive(Debug, Clone, Copy, PartialEq, Eq)]
pub enum ArgsErrorKind {
    /// `allow_reentry` is given a second time.
    DuplicateAllowReentry,
    /// `name` is given a second time.
    DuplicateName,
    /// An option starts with something other than `allow_reentry` or `name`.
    UnknownOption,
    /// `name` is not followed by `=`.
    MissingEquals,
    /// `name =` is not followed by a string literal.
    MissingString,
    /// An option is followed by something other than a comma.
    MissingComma,
}

/// An error in the options, with the place where it was met.
#[derive(Debug, Clone, Copy, PartialEq, Eq)]
pub struct ArgsError {
    pub kind: ArgsErrorKind,
    /// The index of the token that is at fault; `None` where the tokens end
    /// too early.
    pub at: Option<usize>,
}

pub ghost struct MockFfiArgsView {
    pub allow_reentry: bool,
    pub name: Option<Seq<char>>,
}

pub ghost enum TokenView {
    Ident(Seq<char>),
    Punct(char),
    Literal(Seq<char>),
    Group,
}

pub ghost enum WordView {
    Ident(Seq<char>),
    Punct(char),
    Str(Seq<char>),
    Other,
}

impl DeepView for MockFfiArgs {
    type V = MockFfiArgsView;

    open spec fn deep_view(&self) -> MockFfiArgsView {
        MockFfiArgsView { allow_reentry: self.allow_reentry, name: self.name.deep_view() }
    }
}

impl DeepView for Token {
    type V = TokenView;

    open spec fn deep_view(&self) -> TokenView {
        match self {
            Token::Ident(name) => TokenView::Ident(name@),
            Token::Punct(c) => TokenView::Punct(*c),
            Token::Literal(repr) => TokenView::Literal(repr@),
            Token::Group => TokenView::Group,
        }
    }
}

impl DeepView for Word {
    type V = WordView;

    open spec fn deep_view(&self) -> WordView {
        match self {
            Word::Ident(name) => WordView::Ident(name@),
            Word::Punct(c) => WordView::Punct(*c),
            Word::Str(value) => WordView::Str(value@),
            Word::Other => WordView::Other,
        }
    }
}

/// Reads `repr` as a string literal and gives the text that it denotes, or
/// nothing where `repr` is not one string literal.
///
/// Calls `syn::parse_str::<syn::LitStr>` and, where that succeeds,
/// `syn::LitStr::value`. Nothing is claimed of the outcome: which texts are
/// string literals, and what they denote, is decided by the lexer that
/// happens to read them.
#[verifier::external_body]
fn literal_value(repr: &str) -> (value: Option<String>) {
    match syn::parse_str::<syn::LitStr>(repr) {
        Ok(literal) => Some(literal.value()),
        Err(_) => None,
    }
}

/// What a literal is to the options: a string with the text that it
/// denotes, or some other token.
pub open spec fn literal_word(value: Option<Seq<char>>) -> WordView {
    match value {
        Some(text) => WordView::Str(text),
        None => WordView::Other,
    }
}

/// Whether `word` is what `token` can be to the options: an identifier or a
/// punctuation character is itself, a group is some other token, and a
/// literal is either a string, with whatever text, or some other token.
pub open spec fn stands_for(token: TokenView, word: WordView) -> bool {
    match token {
        TokenView::Ident(name) => word == WordView::Ident(name),
        TokenView::Punct(c) => word == WordView::Punct(c),
        TokenView::Literal(_) => word is Str || word is Other,
        TokenView::Group => word == WordView::Other,
    }
}

/// Whether `words` are what `tokens` can be to the options, one for one.
pub open spec fn decoded_as(tokens: Seq<TokenView>, words: Seq<WordView>) -> bool {
    &&& words.len() == tokens.len()
    &&& forall|i: int| 0 <= i < tokens.len() ==> stands_for(tokens[i], #[trigger] words[i])
}

/// The place of an error at `pos`: the token there, or the end.
pub open spec fn place(words: Seq<WordView>, pos: int) -> Option<usize> {
    if 0 <= pos < words.len() {
        Some(pos as usize)
    } else {
        None
    }
}

/// The outcome of reading options from `pos` on, `found` being what was
/// read before.
pub open spec fn parsed_from(words: Seq<WordView>, pos: int, found: MockFfiArgsView) -> Result<
    MockFfiArgsView,
    ArgsError,
>
    decreases words.len() - pos, 1int,
{
    if pos < 0 || pos >= words.len() {
        Ok(found)
    } else if words[pos] == WordView::Ident("allow_reentry"@) {
        if found.allow_reentry {
            Err(ArgsError { kind: ArgsErrorKind::DuplicateAllowReentry, at: place(words, pos) })
        } else {
            parsed_after(
                words,
                pos + 1,
                MockFfiArgsView { allow_reentry: true, name: found.name },
            )
        }
    } else if words[pos] == WordView::Ident("name"@) {
        if found.name is Some {
            Err(ArgsError { kind: ArgsErrorKind::DuplicateName, at: place(words, pos) })
        } else if !(pos + 1 < words.len() && words[pos + 1] == WordView::Punct('=')) {
            Err(ArgsError { kind: ArgsErrorKind::MissingEquals, at: place(words, pos + 1) })
        } else if !(pos + 2 < words.len() && words[pos + 2] is Str) {
            Err(ArgsError { kind: ArgsErrorKind::MissingString, at: place(words, pos + 2) })
        } else {
            parsed_after(
                words,
                pos + 3,
                MockFfiArgsView {
                    allow_reentry: found.allow_reentry,
                    name: Some(words[pos + 2]->Str_0),
                },
            )
        }
    } else {
        Err(ArgsError { kind: ArgsErrorKind::UnknownOption, at: place(words, pos) })
    }
}

/// The outcome of reading on after an option that ended before `pos`: the
/// end, or a comma and what follows it.
pub open spec fn parsed_after(words: Seq<WordView>, pos: int, found: MockFfiArgsView) -> Result<
    MockFfiArgsView,
    ArgsError,
>
    decreases words.len() - pos, 0int,
{
    if pos < 0 || pos >= words.len() {
        Ok(found)
    } else if words[pos] == WordView::Punct(',') {
        parsed_from(words, pos + 1, found)
    } else {
        Err(ArgsError { kind: ArgsErrorKind::MissingComma, at: place(words, pos) })
    }
}

/// The outcome of reading the options: each of `allow_reentry` and
/// `name = "<string>"` at most once, in any order, separated by commas, with
/// or without a comma at the end.
pub open spec fn parsed(words: Seq<WordView>) -> Result<MockFfiArgsView, ArgsError> {
    parsed_from(words, 0, MockFfiArgsView { allow_reentry: false, name: None })
}

impl Token {
    /// What the token is to the options: see [`stands_for`].
    pub fn decode(&self) -> (word: Word)
        ensures
            stands_for(self.deep_view(), word.deep_view()),
    {
        match self {
            Token::Ident(name) => Word::Ident(name.clone()),
            Token::Punct(c) => Word::Punct(*c),
            Token::Literal(repr) => Word::from_literal(literal_value(repr.as_str())),
            Token::Group => Word::Other,
        }
    }
}

impl Word {
    /// What a literal is to the options, given the text that it denotes if it
    /// is a string literal.
    pub fn from_literal(value: Option<String>) -> (word: Word)
        ensures
            word.deep_view() == literal_word(value.deep_view()),
    {
        match value {
            Some(text) => Word::Str(text),
            None => Word::Other,
        }
    }
}

/// Decodes every token: see [`decoded_as`].
pub fn decode(tokens: &Vec<Token>) -> (words: Vec<Word>)
    ensures
        decoded_as(tokens.deep_view(), words.deep_view()),
{
    let mut words: Vec<Word> = Vec::new();
    let mut i: usize = 0;
    while i < tokens.len()
        invariant
            i <= tokens.len(),
            words.len() == i,
            forall|k: int| 0 <= k < i ==> stands_for(tokens[k].deep_view(), words[k].deep_view()),
        decreases tokens.len() - i,
    {
        words.push(tokens[i].decode());
        i = i + 1;
    }
    words
}

impl ArgsErrorKind {
    /// The text of each kind of error.
    pub open spec fn spec_message(self) -> Seq<char> {
        match self {
            ArgsErrorKind::DuplicateAllowReentry =>
                "`allow_reentry` argument may not appear more than once"@,
            ArgsErrorKind::DuplicateName => "`name` argument may not appear more than once"@,
            ArgsErrorKind::UnknownOption => "expected `allow_reentry` or `name`"@,
            ArgsErrorKind::MissingEquals => "expected `=`"@,
            ArgsErrorKind::MissingString => "expected string literal"@,
            ArgsErrorKind::MissingComma => "expected `,`"@,
        }
    }

    /// The kind of error as a sentence for the user.
    pub fn message(&self) -> (text: String)
        ensures
            text@ == self.spec_message(),
    {
        match self {
            ArgsErrorKind::DuplicateAllowReentry =>
                "`allow_reentry` argument may not appear more than once".to_owned(),
            ArgsErrorKind::DuplicateName =>
                "`name` argument may not appear more than once".to_owned(),
            ArgsErrorKind::UnknownOption => "expected `allow_reentry` or `name`".to_owned(),
            ArgsErrorKind::MissingEquals => "expected `=`".to_owned(),
            ArgsErrorKind::MissingString => "expected string literal".to_owned(),
            ArgsErrorKind::MissingComma => "expected `,`".to_owned(),
        }
    }
}

impl ArgsError {
    /// The text of the error: that of its kind, after a notice where the
    /// tokens ended too early.
    pub open spec fn spec_message(self) -> Seq<char> {
        match self.at {
            Some(_) => self.kind.spec_message(),
            None => "unexpected end of input, "@ + self.kind.spec_message(),
        }
    }

    /// The error as a sentence for the user.
    pub fn message(&self) -> (text: String)
        ensures
            text@ == self.spec_message(),
    {
        match self.at {
            Some(_) => self.kind.message(),
            None => {
                let mut text = "unexpected end of input, ".to_owned();
                let kind = self.kind.message();
                text.append(kind.as_str());
                text
            },
        }
    }
}

impl MockFfiArgs {
    /// Reads the options from decoded tokens: see [`parsed`].
    pub fn parse_words(words: &Vec<Word>) -> (result: Result<MockFfiArgs, ArgsError>)
        ensures
            match result {
                Ok(args) => parsed(words.deep_view()) == Ok::<_, ArgsError>(args.deep_view()),
                Err(error) => parsed(words.deep_view()) == Err::<MockFfiArgsView, _>(error),
            },
    {
        let ghost all = words.deep_view();
        let mut allow_reentry = false;
        let mut name: Option<String> = None;
        let mut pos: usize = 0;
        while pos < words.len()
            invariant
                all == words.deep_view(),
                pos <= words.len(),
                parsed(all) == parsed_from(
                    all,
                    pos as int,
                    MockFfiArgsView { allow_reentry, name: name.deep_view() },
                ),
            decreases words.len() - pos,
        {
            let at = Some(pos);
            let is_allow_reentry = match &words[pos] {
                Word::Ident(word) => same_text(word.as_str(), "allow_reentry"),
                _ => false,
            };
            let is_name = match &words[pos] {
                Word::Ident(word) => same_text(word.as_str(), "name"),
                _ => false,
            };
            if is_allow_reentry {
                if allow_reentry {
                    return Err(ArgsError { kind: ArgsErrorKind::DuplicateAllowReentry, at });
                }
                allow_reentry = true;
                pos = pos + 1;
            } else if is_name {
                if name.is_some() {
                    return Err(ArgsError { kind: ArgsErrorKind::DuplicateName, at });
                }
                if pos + 1 >= words.len() {
                    return Err(ArgsError { kind: ArgsErrorKind::MissingEquals, at: None });
                }
                let has_equals = match &words[pos + 1] {
                    Word::Punct(c) => *c == '=',
                    _ => false,
                };
                if !has_equals {
                    return Err(
                        ArgsError { kind: ArgsErrorKind::MissingEquals, at: Some(pos + 1) },
                    );
                }
                if pos + 2 >= words.len() {
                    return Err(ArgsError { kind: ArgsErrorKind::MissingString, at: None });
                }
                match &words[pos + 2] {
                    Word::Str(value) => {
                        name = Some(value.clone());
                    },
                    _ => {
                        return Err(
                            ArgsError { kind: ArgsErrorKind::MissingString, at: Some(pos + 2) },
                        );
                    },
                }
                pos = pos + 3;
            } else {
                return Err(ArgsError { kind: ArgsErrorKind::UnknownOption, at });
            }
            if pos < words.len() {
                let has_comma = match &words[pos] {
                    Word::Punct(c) => *c == ',',
                    _ => false,
                };
                if !has_comma {
                    return Err(ArgsError { kind: ArgsErrorKind::MissingComma, at: Some(pos) });
                }
                pos = pos + 1;
            }
        }
        Ok(MockFfiArgs { allow_reentry, name })
    }

    /// Reads the options from the tokens as they are written: the outcome is
    /// that of [`parsed`] on words that the tokens can be, where a literal
    /// counts as a string if it reads as one.
    pub fn parse(tokens: &Vec<Token>) -> (result: Result<MockFfiArgs, ArgsError>)
        ensures
            exists|words: Seq<WordView>|
                #[trigger] decoded_as(tokens.deep_view(), words) && match result {
                    Ok(args) => parsed(words) == Ok::<_, ArgsError>(args.deep_view()),
                    Err(error) => parsed(words) == Err::<MockFfiArgsView, _>(error),
                },
    {
        let words = decode(tokens);
        let result = MockFfiArgs::parse_words(&words);
        assert(decoded_as(tokens.deep_view(), words.deep_view()));
        result
    }
}

/// Whether the option `option` is given from `pos` on.
pub open spec fn given_from(words: Seq<WordView>, option: Seq<char>, pos: int) -> bool {
    exists|k: int|
        #![trigger words[k]]
        pos <= k < words.len() && words[k] == WordView::Ident(option)
}

/// Whether the option `option` is given at two places from `pos` on.
pub open spec fn given_twice_from(words: Seq<WordView>, option: Seq<char>, pos: int) -> bool {
    exists|i: int, j: int|
        #![trigger words[i], words[j]]
        pos <= i < j < words.len() && words[i] == WordView::Ident(option) && words[j]
            == WordView::Ident(option)
}

/// Whether the option `option` is given at two places.
pub open spec fn given_twice(words: Seq<WordView>, option: Seq<char>) -> bool {
    given_twice_from(words, option, 0)
}

/// Where reading from `pos` on succeeds, an option that was read before is
/// not given again, and no option is given twice.
proof fn lemma_options_once_from(words: Seq<WordView>, pos: int, found: MockFfiArgsView)
    requires
        0 <= pos,
        parsed_from(words, pos, found) is Ok,
    ensures
        found.allow_reentry ==> !given_from(words, "allow_reentry"@, pos),
        found.name is Some ==> !given_from(words, "name"@, pos),
        !given_twice_from(words, "allow_reentry"@, pos),
        !given_twice_from(words, "name"@, pos),
        parsed_from(words, pos, found)->Ok_0.allow_reentry <==> found.allow_reentry
            || given_from(words, "allow_reentry"@, pos),
        parsed_from(words, pos, found)->Ok_0.name is Some <==> found.name is Some || given_from(
            words,
            "name"@,
            pos,
        ),
    decreases words.len() - pos, 1int,
{
    reveal_strlit("allow_reentry");
    reveal_strlit("name");
    assert("allow_reentry"@.len() != "name"@.len());
    if pos < words.len() {
        if words[pos] == WordView::Ident("allow_reentry"@) {
            lemma_options_once_after(
                words,
                pos + 1,
                MockFfiArgsView { allow_reentry: true, name: found.name },
            );
        } else {
            lemma_options_once_after(
                words,
                pos + 3,
                MockFfiArgsView {
                    allow_reentry: found.allow_reentry,
                    name: Some(words[pos + 2]->Str_0),
                },
            );
        }
    }
}

/// The same, for reading on after an option.
proof fn lemma_options_once_after(words: Seq<WordView>, pos: int, found: MockFfiArgsView)
    requires
        0 <= pos,
        parsed_after(words, pos, found) is Ok,
    ensures
        found.allow_reentry ==> !given_from(words, "allow_reentry"@, pos),
        found.name is Some ==> !given_from(words, "name"@, pos),
        !given_twice_from(words, "allow_reentry"@, pos),
        !given_twice_from(words, "name"@, pos),
        parsed_after(words, pos, found)->Ok_0.allow_reentry <==> found.allow_reentry
            || given_from(words, "allow_reentry"@, pos),
        parsed_after(words, pos, found)->Ok_0.name is Some <==> found.name is Some || given_from(
            words,
            "name"@,
            pos,
        ),
    decreases words.len() - pos, 0int,
{
    if pos < words.len() {
        lemma_options_once_from(words, pos + 1, found);
    }
}

/// Options in which `allow_reentry` or `name` is given twice are refused.
pub proof fn lemma_option_given_twice_is_refused(words: Seq<WordView>)
    requires
        given_twice(words, "allow_reentry"@) || given_twice(words, "name"@),
    ensures
        parsed(words) is Err,
{
    if parsed(words) is Ok {
        lemma_options_once_from(
            words,
            0,
            MockFfiArgsView { allow_reentry: false, name: None },
        );
    }
}

/// Tokens in which `allow_reentry` or `name` is written twice are refused,
/// whatever their literals are read as.
pub proof fn lemma_option_written_twice_is_refused(
    tokens: Seq<TokenView>,
    words: Seq<WordView>,
    option: Seq<char>,
    first: int,
    second: int,
)
    requires
        decoded_as(tokens, words),
        option == "allow_reentry"@ || option == "name"@,
        0 <= first < second < tokens.len(),
        tokens[first] == TokenView::Ident(option),
        tokens[second] == TokenView::Ident(option),
    ensures
        parsed(words) is Err,
{
    assert(words[first] == WordView::Ident(option));
    assert(words[second] == WordView::Ident(option));
    assert(given_twice_from(words, option, 0));
    lemma_option_given_twice_is_refused(words);
}

/// Tokens without a literal are read in one way only.
pub proof fn lemma_tokens_without_literal_are_read_one_way(
    tokens: Seq<TokenView>,
    first: Seq<WordView>,
    second: Seq<WordView>,
)
    requires
        decoded_as(tokens, first),
        decoded_as(tokens, second),
        forall|i: int| 0 <= i < tokens.len() ==> !(#[trigger] tokens[i] is Literal),
    ensures
        first == second,
{
    assert forall|i: int| 0 <= i < tokens.len() implies first[i] == second[i] by {
        assert(stands_for(tokens[i], first[i]));
        assert(stands_for(tokens[i], second[i]));
    }
    assert(first =~= second);
}

/// Where the options are accepted, reentry is allowed exactly if
/// `allow_reentry` is given, and there is a symbol name exactly if `name` is.
pub proof fn lemma_accepted_options_are_those_given(words: Seq<WordView>)
    requires
        parsed(words) is Ok,
    ensures
        parsed(words)->Ok_0.allow_reentry <==> given_from(words, "allow_reentry"@, 0),
        parsed(words)->Ok_0.name is Some <==> given_from(words, "name"@, 0),
{
    lemma_options_once_from(words, 0, MockFfiArgsView { allow_reentry: false, name: None });
}

/// No tokens at all give the defaults: the function's own name, and no
/// reentry.
pub proof fn lemma_no_options_give_defaults()
    ensures
        parsed(Seq::empty()) == Ok::<_, ArgsError>(
            MockFfiArgsView { allow_reentry: false, name: None },
        ),
{
}

} // verus!
