use vstd::prelude::*;
use crate::text::{decimal, push_decimal, push_str, to_string};
use crate::vault::repository::SealedCredential;

verus! {

/// A configured model provider.
#[derive(Debug, Clone)]
pub struct Provider {
    pub id: i64,
    pub name: String,
    pub provider_type: String,
    pub base_url: String,
    pub api_key_set: bool,
    pub enabled: bool,
    pub is_default: bool,
    pub created_at: String,
    pub updated_at: String,
}

/// A model offered by a provider.
#[derive(Debug, Clone)]
pub struct ProviderModel {
    pub id: i64,
    pub provider_id: i64,
    pub model_id: String,
    pub model_type: String,
    pub display_name: Option<String>,
    pub context_window: Option<i64>,
    pub max_output: Option<i64>,
    pub supports_tools: bool,
    pub supports_vision: bool,
    pub supports_reasoning: bool,
    pub supports_audio: bool,
    pub supports_video: bool,
    pub input_modalities: String,
    pub output_modalities: String,
}

/// A request to add a provider.
#[derive(Debug, Clone)]
pub struct CreateProviderRequest {
    pub name: String,
    pub provider_type: String,
    pub base_url: String,
    pub api_key: Option<String>,
    pub enabled: Option<bool>,
    pub is_default: Option<bool>,
}

/// A request to change a provider; only the given fields change.
#[derive(Debug, Clone)]
pub struct UpdateProviderRequest {
    pub name: Option<String>,
    pub base_url: Option<String>,
    pub api_key: Option<String>,
    pub enabled: Option<bool>,
    pub is_default: Option<bool>,
}

/// A value bound to an SQL parameter.
#[derive(Debug, Clone)]
pub enum SqlValue {
    Text(String),
    Blob(Vec<u8>),
    Integer(i64),
}

/// An SQL statement with its parameters, `?1` first.
#[derive(Debug, Clone)]
pub struct SqlStatement {
    pub sql: String,
    pub params: Vec<SqlValue>,
}

/// A parameter value by kind (0 text, 1 blob, 2 integer) and content.
pub type SqlValueView = (int, Seq<char>, Seq<u8>, i64);

pub open spec fn sql_value_view(v: SqlValue) -> SqlValueView {
    match v {
        SqlValue::Text(s) => (0, s@, Seq::empty(), 0),
        SqlValue::Blob(b) => (1, Seq::empty(), b@, 0),
        SqlValue::Integer(i) => (2, Seq::empty(), Seq::empty(), i),
    }
}

pub open spec fn sql_value_views(s: Seq<SqlValue>) -> Seq<SqlValueView> {
    s.map_values(|v: SqlValue| sql_value_view(v))
}

pub open spec fn text_value(s: Seq<char>) -> SqlValueView {
    (0, s, Seq::empty(), 0)
}

pub open spec fn blob_value(b: Seq<u8>) -> SqlValueView {
    (1, Seq::empty(), b, 0)
}

pub open spec fn int_value(i: i64) -> SqlValueView {
    (2, Seq::empty(), Seq::empty(), i)
}

/// A column assignment of an update: the column and its new value.
pub type Assignment = (Seq<char>, SqlValueView);

/// The column assignments an update request makes, in column order: name,
/// base URL, the four parts of the sealed API key, enabled, default.
pub open spec fn update_assignments(req: UpdateProviderRequest, env: SealedCredential) -> Seq<
    Assignment,
> {
    (match req.name {
        Some(n) => seq![("name"@, text_value(n@))],
        None => Seq::empty(),
    }) + (match req.base_url {
        Some(u) => seq![("base_url"@, text_value(u@))],
        None => Seq::empty(),
    }) + (if req.api_key is Some {
        seq![
            ("api_key_encrypted"@, blob_value(env.encrypted_dek@)),
            ("api_key_dek_nonce"@, blob_value(env.dek_nonce@)),
            ("api_key_ciphertext"@, blob_value(env.ciphertext@)),
            ("api_key_ciphertext_nonce"@, blob_value(env.ciphertext_nonce@)),
        ]
    } else {
        Seq::empty()
    }) + (match req.enabled {
        Some(b) => seq![("enabled"@, int_value(if b { 1 } else { 0 }))],
        None => Seq::empty(),
    }) + (match req.is_default {
        Some(b) => seq![("is_default"@, int_value(if b { 1 } else { 0 }))],
        None => Seq::empty(),
    })
}

/// `col = ?k` for each assignment, numbered from 1, joined by `, `.
pub open spec fn set_list(a: Seq<Assignment>) -> Seq<char>
    decreases a.len(),
{
    if a.len() == 0 {
        Seq::empty()
    } else if a.len() == 1 {
        a[0].0 + " = ?"@ + decimal(1)
    } else {
        set_list(a.drop_last()) + ", "@ + a.last().0 + " = ?"@ + decimal(a.len())
    }
}

/// The statement that applies the assignments to provider `id`; the
/// update time is set too, and the id is the last parameter.
pub open spec fn update_sql(a: Seq<Assignment>) -> Seq<char> {
    "UPDATE providers SET "@ + set_list(a) + ", "@
        + "updated_at = strftime('%Y-%m-%dT%H:%M:%fZ', 'now')"@ + " WHERE id = ?"@ + decimal(
        a.len() + 1,
    )
}

fn push_assignment(
    sql: &mut String,
    params: &mut Vec<SqlValue>,
    column: &str,
    value: SqlValue,
    Ghost(done): Ghost<Seq<Assignment>>,
)
    requires
        old(params)@.len() == done.len(),
        old(sql)@ == set_list(done),
        sql_value_views(old(params)@) == done.map_values(|x: Assignment| x.1),
        done.len() < u64::MAX,
    ensures
        final(sql)@ == set_list(done.push((column@, sql_value_view(value)))),
        sql_value_views(final(params)@) == done.push((column@, sql_value_view(value))).map_values(
            |x: Assignment| x.1,
        ),
        final(params)@.len() == done.len() + 1,
{
    let ghost next = done.push((column@, sql_value_view(value)));
    assert(next.drop_last() =~= done);
    if params.len() > 0 {
        push_str(sql, ", ");
    }
    push_str(sql, column);
    push_str(sql, " = ?");
    let k: u64 = params.len() as u64 + 1;
    push_decimal(sql, k);
    let ghost before = params@;
    params.push(value);
    assert(sql_value_views(params@) =~= sql_value_views(before).push(sql_value_view(value)));
    assert(next.map_values(|x: Assignment| x.1) =~= done.map_values(|x: Assignment| x.1).push(
        sql_value_view(value),
    ));
    proof {
        if done.len() == 0 {
            assert(old(sql)@ =~= Seq::<char>::empty());
        }
    }
}

/// The statement that applies an update request to provider `id`, with the
/// sealed API key `env` used when the request sets a key; `None` when the
/// request changes nothing.
pub fn update_statement(id: i64, req: &UpdateProviderRequest, env: &SealedCredential) -> (r: Option<
    SqlStatement,
>)
    ensures
        update_assignments(*req, *env).len() == 0 <==> r is None,
        r matches Some(st) ==> {
            let a = update_assignments(*req, *env);
            &&& st.sql@ == update_sql(a)
            &&& sql_value_views(st.params@) == a.map_values(|x: Assignment| x.1).push(int_value(id))
        },
{
    let ghost all = update_assignments(*req, *env);
    let mut sql = String::new();
    let mut params: Vec<SqlValue> = Vec::new();
    let ghost mut done: Seq<Assignment> = Seq::empty();
    assert(sql_value_views(params@) =~= done.map_values(|x: Assignment| x.1));
    if let Some(n) = &req.name {
        push_assignment(&mut sql, &mut params, "name", SqlValue::Text(n.clone()), Ghost(done));
        proof {
            done = done.push(("name"@, text_value(n@)));
        }
    }
    if let Some(u) = &req.base_url {
        push_assignment(&mut sql, &mut params, "base_url", SqlValue::Text(u.clone()), Ghost(done));
        proof {
            done = done.push(("base_url"@, text_value(u@)));
        }
    }
    if req.api_key.is_some() {
        let b1 = vstd::slice::slice_to_vec(env.encrypted_dek.as_slice());
        push_assignment(&mut sql, &mut params, "api_key_encrypted", SqlValue::Blob(b1), Ghost(done));
        proof {
            done = done.push(("api_key_encrypted"@, blob_value(env.encrypted_dek@)));
        }
        let b2 = vstd::slice::slice_to_vec(env.dek_nonce.as_slice());
        push_assignment(&mut sql, &mut params, "api_key_dek_nonce", SqlValue::Blob(b2), Ghost(done));
        proof {
            done = done.push(("api_key_dek_nonce"@, blob_value(env.dek_nonce@)));
        }
        let b3 = vstd::slice::slice_to_vec(env.ciphertext.as_slice());
        push_assignment(&mut sql, &mut params, "api_key_ciphertext", SqlValue::Blob(b3), Ghost(done));
        proof {
            done = done.push(("api_key_ciphertext"@, blob_value(env.ciphertext@)));
        }
        let b4 = vstd::slice::slice_to_vec(env.ciphertext_nonce.as_slice());
        push_assignment(
            &mut sql,
            &mut params,
            "api_key_ciphertext_nonce",
            SqlValue::Blob(b4),
            Ghost(done),
        );
        proof {
            done = done.push(("api_key_ciphertext_nonce"@, blob_value(env.ciphertext_nonce@)));
        }
    }
    if let Some(b) = req.enabled {
        let v: i64 = if b {
            1
        } else {
            0
        };
        push_assignment(&mut sql, &mut params, "enabled", SqlValue::Integer(v), Ghost(done));
        proof {
            done = done.push(("enabled"@, int_value(v)));
        }
    }
    if let Some(b) = req.is_default {
        let v: i64 = if b {
            1
        } else {
            0
        };
        push_assignment(&mut sql, &mut params, "is_default", SqlValue::Integer(v), Ghost(done));
        proof {
            done = done.push(("is_default"@, int_value(v)));
        }
    }
    assert(done =~= all);
    if params.len() == 0 {
        return None;
    }
    let mut stmt = to_string("UPDATE providers SET ");
    push_str(&mut stmt, sql.as_str());
    push_str(&mut stmt, ", ");
    push_str(&mut stmt, "updated_at = strftime('%Y-%m-%dT%H:%M:%fZ', 'now')");
    push_str(&mut stmt, " WHERE id = ?");
    let k: u64 = params.len() as u64 + 1;
    push_decimal(&mut stmt, k);
    let ghost before = params@;
    params.push(SqlValue::Integer(id));
    assert(sql_value_views(params@) =~= sql_value_views(before).push(int_value(id)));
    Some(SqlStatement { sql: stmt, params })
}

} // verus!
