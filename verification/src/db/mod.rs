pub mod ids;

use vstd::prelude::*;
use crate::text::{push_signed_decimal, push_str, signed_decimal, to_string};

verus! {

/// The embedding dimensions a vector table can be made for.
pub open spec fn vec_dimensions_allowed(d: i32) -> bool {
    d == 384 || d == 768 || d == 1024 || d == 1536 || d == 3072
}

/// The name of the vector table for a dimension.
pub open spec fn vec_table_name_text(d: i32) -> Seq<char> {
    "vec_mem_"@ + signed_decimal(d as int)
}

/// The statement that creates the vector table for a dimension.
pub open spec fn vec_table_ddl_text(d: i32) -> Seq<char> {
    "CREATE VIRTUAL TABLE IF NOT EXISTS "@ + vec_table_name_text(d)
        + " USING vec0(\n            vector_id INTEGER PRIMARY KEY,\n            embedding float["@
        + signed_decimal(d as int) + "] distance_metric=cosine\n        );"@
}

/// The statement that creates the vector table (cosine distance) for an
/// embedding dimension, or the refusal of a dimension off the whitelist.
pub fn vec_table_ddl(dimensions: i32) -> (r: Result<String, String>)
    ensures
        vec_dimensions_allowed(dimensions) ==> (r matches Ok(s) && s@ == vec_table_ddl_text(
            dimensions,
        )),
        !vec_dimensions_allowed(dimensions) ==> (r matches Err(e) && e@ == "dimensions "@
            + signed_decimal(dimensions as int) + " not in whitelist"@),
{
    if !(dimensions == 384 || dimensions == 768 || dimensions == 1024 || dimensions == 1536
        || dimensions == 3072) {
        let mut e = to_string("dimensions ");
        push_signed_decimal(&mut e, dimensions as i64);
        push_str(&mut e, " not in whitelist");
        return Err(e);
    }
    let mut s = to_string("CREATE VIRTUAL TABLE IF NOT EXISTS ");
    push_str(&mut s, "vec_mem_");
    push_signed_decimal(&mut s, dimensions as i64);
    push_str(
        &mut s,
        " USING vec0(\n            vector_id INTEGER PRIMARY KEY,\n            embedding float[",
    );
    push_signed_decimal(&mut s, dimensions as i64);
    push_str(&mut s, "] distance_metric=cosine\n        );");
    proof {
        assert(s@ =~= vec_table_ddl_text(dimensions));
    }
    Ok(s)
}

} // verus!
