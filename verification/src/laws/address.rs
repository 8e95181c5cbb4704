//! What holds of the addresses of the requests, whatever the settings and
//! the arguments.

use crate::client::{
    batch_query, batch_read_query, create_query, delete_query, fields_text, read_query,
    submission_path,
};
use crate::config::ConfigView;
use crate::text::{flag_text, joined, query_text, texts};
use vstd::prelude::*;

verus! {

/// A query string of one parameter.
pub proof fn law_query_of_one(first: (Seq<char>, Seq<char>))
    ensures
        query_text(seq![first]) == seq!['?'] + first.0 + seq!['='] + first.1,
{
    assert(query_text(seq![first]) =~= seq!['?'] + first.0 + seq!['='] + first.1);
}

/// A query string of two parameters.
pub proof fn law_query_of_two(first: (Seq<char>, Seq<char>), second: (Seq<char>, Seq<char>))
    ensures
        query_text(seq![first, second]) == seq!['?'] + first.0 + seq!['='] + first.1 + seq!['&']
            + second.0 + seq!['='] + second.1,
{
    law_query_of_one(first);
    assert(seq![first, second].drop_last() =~= seq![first]);
    assert(query_text(seq![first, second]) =~= seq!['?'] + first.0 + seq!['='] + first.1
        + seq!['&'] + second.0 + seq!['='] + second.1);
}

/// A query string of three parameters.
pub proof fn law_query_of_three(
    first: (Seq<char>, Seq<char>),
    second: (Seq<char>, Seq<char>),
    third: (Seq<char>, Seq<char>),
)
    ensures
        query_text(seq![first, second, third]) == seq!['?'] + first.0 + seq!['='] + first.1
            + seq!['&'] + second.0 + seq!['='] + second.1 + seq!['&'] + third.0 + seq!['=']
            + third.1,
{
    law_query_of_two(first, second);
    assert(seq![first, second, third].drop_last() =~= seq![first, second]);
    assert(query_text(seq![first, second, third]) =~= seq!['?'] + first.0 + seq!['='] + first.1
        + seq!['&'] + second.0 + seq!['='] + second.1 + seq!['&'] + third.0 + seq!['=']
        + third.1);
}

/// A flag is written in lower case letters, `true` or `false`.
pub proof fn law_flag_text(on: bool)
    ensures
        flag_text(true) == seq!['t', 'r', 'u', 'e'],
        flag_text(false) == seq!['f', 'a', 'l', 's', 'e'],
        flag_text(on) == flag_text(true) || flag_text(on) == flag_text(false),
{
    reveal_strlit("true");
    reveal_strlit("false");
    assert(flag_text(true) =~= seq!['t', 'r', 'u', 'e']);
    assert(flag_text(false) =~= seq!['f', 'a', 'l', 's', 'e']);
}

/// Where the caller names no fields, all of them are asked for; a selection
/// that the caller gives stands in the query as it is.
pub proof fn law_fields_text(fields: Option<&str>)
    ensures
        fields is None ==> fields_text(fields) == seq!['*'],
        fields matches Some(list) ==> fields_text(fields) == list@,
{
    reveal_strlit("*");
    assert("*"@ =~= seq!['*']);
}

/// Three texts joined: each in its place, the separator between them and
/// nowhere else.
pub proof fn law_joined_three(
    first: Seq<char>,
    second: Seq<char>,
    third: Seq<char>,
    separator: Seq<char>,
)
    ensures
        joined(seq![first, second, third], separator) == first + separator + second + separator
            + third,
{
    let all = seq![first, second, third];
    assert(all.drop_last() =~= seq![first, second]);
    assert(seq![first, second].drop_last() =~= seq![first]);
    assert(joined(seq![first], separator) == first);
    assert(joined(seq![first, second], separator) == first + separator + second);
}

/// The address at which a submission is created: both flags of the
/// settings, the encoding first, in every one of their four combinations.
pub proof fn law_create_address(config: ConfigView)
    ensures
        "/submissions"@ + query_text(create_query(config)) == "/submissions?base64_encoded="@
            + flag_text(config.base64_encoded) + "&wait="@ + flag_text(config.wait),
{
    reveal_strlit("/submissions");
    reveal_strlit("/submissions?base64_encoded=");
    reveal_strlit("base64_encoded");
    reveal_strlit("&wait=");
    reveal_strlit("wait");
    law_query_of_two(
        ("base64_encoded"@, flag_text(config.base64_encoded)),
        ("wait"@, flag_text(config.wait)),
    );
    assert("/submissions"@ + (seq!['?'] + "base64_encoded"@ + seq!['='])
        =~= "/submissions?base64_encoded="@);
    assert(seq!['&'] + "wait"@ + seq!['='] =~= "&wait="@);
    assert("/submissions"@ + query_text(create_query(config)) =~= "/submissions"@ + (seq!['?']
        + "base64_encoded"@ + seq!['=']) + flag_text(config.base64_encoded) + (seq!['&'] + "wait"@
        + seq!['=']) + flag_text(config.wait));
}

/// The address at which one submission is read: the token in the path as it
/// is, then both flags of the settings and the field selection.
pub proof fn law_read_address(config: ConfigView, token: Seq<char>, fields: Option<&str>)
    ensures
        submission_path(token) + query_text(read_query(config, fields)) == "/submissions/"@ + token
            + "?base64_encoded="@ + flag_text(config.base64_encoded) + "&wait="@ + flag_text(
            config.wait,
        ) + "&fields="@ + fields_text(fields),
{
    reveal_strlit("?base64_encoded=");
    reveal_strlit("base64_encoded");
    reveal_strlit("&wait=");
    reveal_strlit("wait");
    reveal_strlit("&fields=");
    reveal_strlit("fields");
    law_query_of_three(
        ("base64_encoded"@, flag_text(config.base64_encoded)),
        ("wait"@, flag_text(config.wait)),
        ("fields"@, fields_text(fields)),
    );
    assert(seq!['?'] + "base64_encoded"@ + seq!['='] =~= "?base64_encoded="@);
    assert(seq!['&'] + "wait"@ + seq!['='] =~= "&wait="@);
    assert(seq!['&'] + "fields"@ + seq!['='] =~= "&fields="@);
    assert(submission_path(token) + query_text(read_query(config, fields)) =~= "/submissions/"@
        + token + (seq!['?'] + "base64_encoded"@ + seq!['=']) + flag_text(config.base64_encoded)
        + (seq!['&'] + "wait"@ + seq!['=']) + flag_text(config.wait) + (seq!['&'] + "fields"@
        + seq!['=']) + fields_text(fields));
}

/// The address at which one submission is deleted: the token in the path,
/// then the field selection alone.
pub proof fn law_delete_address(token: Seq<char>, fields: Option<&str>)
    ensures
        submission_path(token) + query_text(delete_query(fields)) == "/submissions/"@ + token
            + "?fields="@ + fields_text(fields),
{
    reveal_strlit("?fields=");
    reveal_strlit("fields");
    law_query_of_one(("fields"@, fields_text(fields)));
    assert(seq!['?'] + "fields"@ + seq!['='] =~= "?fields="@);
    assert(submission_path(token) + query_text(delete_query(fields)) =~= "/submissions/"@ + token
        + (seq!['?'] + "fields"@ + seq!['=']) + fields_text(fields));
}

/// The address at which several submissions are created: the encoding flag
/// alone.
pub proof fn law_batch_address(config: ConfigView)
    ensures
        "/submissions/batch"@ + query_text(batch_query(config))
            == "/submissions/batch?base64_encoded="@ + flag_text(config.base64_encoded),
{
    reveal_strlit("/submissions/batch");
    reveal_strlit("/submissions/batch?base64_encoded=");
    reveal_strlit("base64_encoded");
    law_query_of_one(("base64_encoded"@, flag_text(config.base64_encoded)));
    assert("/submissions/batch"@ + (seq!['?'] + "base64_encoded"@ + seq!['='])
        =~= "/submissions/batch?base64_encoded="@);
    assert("/submissions/batch"@ + query_text(batch_query(config)) =~= "/submissions/batch"@ + (
    seq!['?'] + "base64_encoded"@ + seq!['=']) + flag_text(config.base64_encoded));
}

/// The address at which several submissions are read: the tokens in their
/// order with a comma between each two, written as they are, then the
/// encoding flag and the field selection.
pub proof fn law_batch_read_address(config: ConfigView, tokens: Seq<&str>, fields: Option<&str>)
    ensures
        "/submissions/batch"@ + query_text(batch_read_query(config, tokens, fields))
            == "/submissions/batch?tokens="@ + joined(texts(tokens), seq![','])
            + "&base64_encoded="@ + flag_text(config.base64_encoded) + "&fields="@ + fields_text(
            fields,
        ),
{
    reveal_strlit("/submissions/batch");
    reveal_strlit("/submissions/batch?tokens=");
    reveal_strlit("tokens");
    reveal_strlit(",");
    reveal_strlit("&base64_encoded=");
    reveal_strlit("base64_encoded");
    reveal_strlit("&fields=");
    reveal_strlit("fields");
    assert(","@ =~= seq![',']);
    let list = joined(texts(tokens), ","@);
    law_query_of_three(
        ("tokens"@, list),
        ("base64_encoded"@, flag_text(config.base64_encoded)),
        ("fields"@, fields_text(fields)),
    );
    assert("/submissions/batch"@ + (seq!['?'] + "tokens"@ + seq!['='])
        =~= "/submissions/batch?tokens="@);
    assert(seq!['&'] + "base64_encoded"@ + seq!['='] =~= "&base64_encoded="@);
    assert(seq!['&'] + "fields"@ + seq!['='] =~= "&fields="@);
    assert("/submissions/batch"@ + query_text(batch_read_query(config, tokens, fields))
        =~= "/submissions/batch"@ + (seq!['?'] + "tokens"@ + seq!['=']) + list + (seq!['&']
        + "base64_encoded"@ + seq!['=']) + flag_text(config.base64_encoded) + (seq!['&']
        + "fields"@ + seq!['=']) + fields_text(fields));
}

} // verus!
