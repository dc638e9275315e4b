//! Query expressions: `select * from T`, given as tokens.

use vstd::prelude::*;
use crate::schema::select_all_statement;
use crate::text::{decimal, push_decimal};

verus! {

/// One token of a query expression.
#[derive(Clone, Debug, PartialEq, Eq)]
pub enum SqlToken {
    /// An identifier.
    Ident(String),
    /// The `*` sign.
    Star,
    /// Any other token, by its text.
    Other(String),
}

/// The columns that a query selects.
#[derive(Clone, Copy, Debug, PartialEq, Eq, Structural)]
pub enum SelectColumns {
    AllColumns,
}

/// A parsed query expression.
#[derive(Clone, Debug, PartialEq, Eq)]
pub enum SqlAst {
    SelectQuery { selector: SelectColumns, tablename: String },
}

/// Why a query expression is rejected.
#[derive(Clone, Debug, PartialEq, Eq)]
pub enum SqlSyntaxError {
    /// The token at `position` had to be an identifier.
    ExpectedIdent { position: usize },
    /// The expression opens with a word other than `select`.
    UnknownDirective(String),
    /// `select` is followed by something other than `*`.
    UnexpectedToken(String),
    /// `select *` is followed by a word other than `from`.
    ExpectedFrom(String),
    /// The expression goes on after the table name, from `position`.
    TrailingTokens { position: usize },
}

/// The model of a token.
pub enum TokenModel {
    Ident(Seq<char>),
    Star,
    Other(Seq<char>),
}

/// The model of a parsed query expression.
pub enum AstModel {
    SelectQuery { selector: SelectColumns, tablename: Seq<char> },
}

/// The model of a rejection.
pub enum SyntaxErrorModel {
    ExpectedIdent { position: usize },
    UnknownDirective(Seq<char>),
    UnexpectedToken(Seq<char>),
    ExpectedFrom(Seq<char>),
    TrailingTokens { position: usize },
}

impl View for SqlToken {
    type V = TokenModel;

    open spec fn view(&self) -> TokenModel {
        match *self {
            SqlToken::Ident(s) => TokenModel::Ident(s@),
            SqlToken::Star => TokenModel::Star,
            SqlToken::Other(s) => TokenModel::Other(s@),
        }
    }
}

impl View for SqlAst {
    type V = AstModel;

    open spec fn view(&self) -> AstModel {
        match *self {
            SqlAst::SelectQuery { selector, tablename } => AstModel::SelectQuery {
                selector,
                tablename: tablename@,
            },
        }
    }
}

impl View for SqlSyntaxError {
    type V = SyntaxErrorModel;

    open spec fn view(&self) -> SyntaxErrorModel {
        match *self {
            SqlSyntaxError::ExpectedIdent { position } => SyntaxErrorModel::ExpectedIdent { position },
            SqlSyntaxError::UnknownDirective(s) => SyntaxErrorModel::UnknownDirective(s@),
            SqlSyntaxError::UnexpectedToken(s) => SyntaxErrorModel::UnexpectedToken(s@),
            SqlSyntaxError::ExpectedFrom(s) => SyntaxErrorModel::ExpectedFrom(s@),
            SqlSyntaxError::TrailingTokens { position } => SyntaxErrorModel::TrailingTokens { position },
        }
    }
}

/// The models of a list of tokens.
pub open spec fn token_models(tokens: Seq<SqlToken>) -> Seq<TokenModel> {
    tokens.map_values(|token: SqlToken| token@)
}

/// The text of the token at `position`; the end of the tokens reads as
/// `<eof>`.
pub open spec fn token_text(tokens: Seq<TokenModel>, position: int) -> Seq<char> {
    if 0 <= position < tokens.len() {
        match tokens[position] {
            TokenModel::Ident(s) => s,
            TokenModel::Star => "*"@,
            TokenModel::Other(s) => s,
        }
    } else {
        "<eof>"@
    }
}

/// The identifier at `position`, if the token there is one.
pub open spec fn ident_at(tokens: Seq<TokenModel>, position: int) -> Option<Seq<char>> {
    if 0 <= position < tokens.len() {
        match tokens[position] {
            TokenModel::Ident(s) => Some(s),
            _ => None,
        }
    } else {
        None
    }
}

/// What the tokens after `select` parse to: `*`, the word `from`, a table
/// name, and then the end.
pub open spec fn parse_select_spec(tokens: Seq<TokenModel>) -> Result<(SelectColumns, Seq<char>), SyntaxErrorModel> {
    if !(1 < tokens.len() && tokens[1] is Star) {
        Err(SyntaxErrorModel::UnexpectedToken(token_text(tokens, 1)))
    } else {
        match ident_at(tokens, 2) {
            None => Err(SyntaxErrorModel::ExpectedIdent { position: 2 }),
            Some(word) => if word != "from"@ {
                Err(SyntaxErrorModel::ExpectedFrom(word))
            } else {
                match ident_at(tokens, 3) {
                    None => Err(SyntaxErrorModel::ExpectedIdent { position: 3 }),
                    Some(tablename) => if tokens.len() != 4 {
                        Err(SyntaxErrorModel::TrailingTokens { position: 4 })
                    } else {
                        Ok((SelectColumns::AllColumns, tablename))
                    },
                }
            },
        }
    }
}

/// What a query expression parses to: the word `select` and what follows
/// it.
pub open spec fn parse_sql_spec(tokens: Seq<TokenModel>) -> Result<AstModel, SyntaxErrorModel> {
    match ident_at(tokens, 0) {
        None => Err(SyntaxErrorModel::ExpectedIdent { position: 0 }),
        Some(word) => if word != "select"@ {
            Err(SyntaxErrorModel::UnknownDirective(word))
        } else {
            match parse_select_spec(tokens) {
                Err(e) => Err(e),
                Ok((selector, tablename)) => Ok(AstModel::SelectQuery { selector, tablename }),
            }
        },
    }
}

/// Whether `outcome` is `expected`, each side taken by its model.
pub open spec fn parsed_as(outcome: Result<SqlAst, SqlSyntaxError>, expected: Result<AstModel, SyntaxErrorModel>) -> bool {
    match outcome {
        Ok(ast) => expected == Ok::<AstModel, SyntaxErrorModel>(ast@),
        Err(e) => expected == Err::<AstModel, SyntaxErrorModel>(e@),
    }
}

/// Returns the identifier at `position`, if the token there is one.
fn parse_ident(tokens: &Vec<SqlToken>, position: usize) -> (word: Option<String>)
    ensures
        match word {
            Some(s) => ident_at(token_models(tokens@), position as int) == Some(s@),
            None => ident_at(token_models(tokens@), position as int) is None,
        },
{
    if position < tokens.len() {
        match &tokens[position] {
            SqlToken::Ident(s) => Some(s.clone()),
            _ => None,
        }
    } else {
        None
    }
}

/// Returns the text of the token at `position`.
fn this_token_to_str(tokens: &Vec<SqlToken>, position: usize) -> (text: String)
    ensures
        text@ == token_text(token_models(tokens@), position as int),
{
    if position < tokens.len() {
        match &tokens[position] {
            SqlToken::Ident(s) => s.clone(),
            SqlToken::Star => String::from_str("*"),
            SqlToken::Other(s) => s.clone(),
        }
    } else {
        String::from_str("<eof>")
    }
}

/// Tells whether `text` is the word `word`.
fn is_word(text: &String, word: &str) -> (same: bool)
    ensures
        same == (text@ == word@),
{
    let other = String::from_str(word);
    *text == other
}

/// Parses what follows `select` in `tokens`: `*`, the word `from`, a table
/// name, and then the end.
pub fn parse_select(tokens: &Vec<SqlToken>) -> (outcome: Result<(SelectColumns, String), SqlSyntaxError>)
    ensures
        match outcome {
            Ok((selector, tablename)) => parse_select_spec(token_models(tokens@)) == Ok::<
                (SelectColumns, Seq<char>),
                SyntaxErrorModel,
            >((selector, tablename@)),
            Err(e) => parse_select_spec(token_models(tokens@)) == Err::<
                (SelectColumns, Seq<char>),
                SyntaxErrorModel,
            >(e@),
        },
{
    let starred = 1 < tokens.len() && match &tokens[1] {
        SqlToken::Star => true,
        _ => false,
    };
    if !starred {
        return Err(SqlSyntaxError::UnexpectedToken(this_token_to_str(tokens, 1)));
    }
    match parse_ident(tokens, 2) {
        None => Err(SqlSyntaxError::ExpectedIdent { position: 2 }),
        Some(word) => {
            if !is_word(&word, "from") {
                return Err(SqlSyntaxError::ExpectedFrom(word));
            }
            match parse_ident(tokens, 3) {
                None => Err(SqlSyntaxError::ExpectedIdent { position: 3 }),
                Some(tablename) => {
                    if tokens.len() != 4 {
                        Err(SqlSyntaxError::TrailingTokens { position: 4 })
                    } else {
                        Ok((SelectColumns::AllColumns, tablename))
                    }
                },
            }
        },
    }
}

/// Parses a query expression: the word `select` and what follows it.
pub fn parse_sql(tokens: &Vec<SqlToken>) -> (outcome: Result<SqlAst, SqlSyntaxError>)
    ensures
        parsed_as(outcome, parse_sql_spec(token_models(tokens@))),
{
    match parse_ident(tokens, 0) {
        None => Err(SqlSyntaxError::ExpectedIdent { position: 0 }),
        Some(word) => {
            if !is_word(&word, "select") {
                return Err(SqlSyntaxError::UnknownDirective(word));
            }
            match parse_select(tokens) {
                Err(e) => Err(e),
                Ok((selector, tablename)) => Ok(SqlAst::SelectQuery { selector, tablename }),
            }
        },
    }
}

/// Expands a query expression to the text of its statement: for
/// `select * from T` the select-all statement of the table `T`.
pub fn expand_sql_ext(tokens: &Vec<SqlToken>) -> (outcome: Result<String, SqlSyntaxError>)
    ensures
        match outcome {
            Ok(query) => parse_sql_spec(token_models(tokens@)) matches Ok(
                AstModel::SelectQuery { selector, tablename },
            ) && query@ == select_all_statement(tablename),
            Err(e) => parse_sql_spec(token_models(tokens@)) == Err::<AstModel, SyntaxErrorModel>(e@),
        },
{
    match parse_sql(tokens) {
        Err(e) => Err(e),
        Ok(SqlAst::SelectQuery { selector: _, tablename }) => {
            let mut query = String::from_str("SELECT * FROM ");
            query.append(tablename.as_str());
            query.append(";");
            Ok(query)
        },
    }
}

/// The text of a rejection.
pub open spec fn syntax_message_spec(error: SyntaxErrorModel) -> Seq<char> {
    match error {
        SyntaxErrorModel::ExpectedIdent { position } => "expected an identifier at token "@ + decimal(
            position as nat,
        ),
        SyntaxErrorModel::UnknownDirective(word) => "unknown SQL directive "@ + word,
        SyntaxErrorModel::UnexpectedToken(text) => "unexpected token `"@ + text + "`"@,
        SyntaxErrorModel::ExpectedFrom(word) => "expected `from`, but found `"@ + word + "`"@,
        SyntaxErrorModel::TrailingTokens { position } => "unexpected tokens from token "@ + decimal(
            position as nat,
        ),
    }
}

impl SqlSyntaxError {
    /// Returns the text of this rejection, which names what was found.
    pub fn message(&self) -> (text: String)
        ensures
            text@ == syntax_message_spec(self@),
    {
        match self {
            SqlSyntaxError::ExpectedIdent { position } => {
                let mut text = String::from_str("expected an identifier at token ");
                push_decimal(&mut text, *position as u64);
                text
            },
            SqlSyntaxError::UnknownDirective(word) => {
                let mut text = String::from_str("unknown SQL directive ");
                text.append(word.as_str());
                text
            },
            SqlSyntaxError::UnexpectedToken(found) => {
                let mut text = String::from_str("unexpected token `");
                text.append(found.as_str());
                text.append("`");
                text
            },
            SqlSyntaxError::ExpectedFrom(word) => {
                let mut text = String::from_str("expected `from`, but found `");
                text.append(word.as_str());
                text.append("`");
                text
            },
            SqlSyntaxError::TrailingTokens { position } => {
                let mut text = String::from_str("unexpected tokens from token ");
                push_decimal(&mut text, *position as u64);
                text
            },
        }
    }
}

} // verus!
