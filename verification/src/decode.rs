use vstd::prelude::*;

use crate::errors::IngestError;
use crate::json::JsonModel;
use crate::json::json_as_array;
use crate::json::json_as_bool;
use crate::json::json_as_i64;
use crate::json::json_as_string;
use crate::json::json_get;
use crate::json::json_is_null;
use crate::json::json_number_text;
use crate::json::model_arr;
use crate::json::model_bool;
use crate::json::model_entry;
use crate::json::model_int;
use crate::json::model_is_null;
use crate::json::model_num_text;
use crate::json::model_str;

verus! {

/// The view of an optional owned string.
pub open spec fn opt_str_view(o: Option<String>) -> Option<Seq<char>> {
    match o {
        Option::None => None,
        Option::Some(s) => Some(s@),
    }
}

/// The views of a list of owned strings.
pub open spec fn strs_view(v: Seq<String>) -> Seq<Seq<char>> {
    Seq::new(v.len(), |i: int| v[i]@)
}

/// The views of an optional list of owned strings.
pub open spec fn opt_strs_view(o: Option<Vec<String>>) -> Option<Seq<Seq<char>>> {
    match o {
        Option::None => None,
        Option::Some(v) => Some(strs_view(v@)),
    }
}

/// Every element of the list models a JSON string.
pub open spec fn all_str_items(ms: Seq<JsonModel>) -> bool {
    forall|i: int| 0 <= i < ms.len() ==> model_str(#[trigger] ms[i]) is Some
}

/// The texts of a list of JSON string models.
pub open spec fn str_items(ms: Seq<JsonModel>) -> Seq<Seq<char>> {
    Seq::new(ms.len(), |i: int| model_str(ms[i]).unwrap())
}

/// Reading an optional string field of a modelled object: the outer
/// `None` is a type error; the inner `None` an absent-or-null field.
pub open spec fn spec_opt_string(m: JsonModel, k: Seq<char>) -> Option<Option<Seq<char>>> {
    match model_entry(m, k) {
        Option::None => Some(None),
        Option::Some(x) => if model_is_null(x) {
            Some(None)
        } else {
            match model_str(x) {
                Option::Some(s) => Some(Some(s)),
                Option::None => None,
            }
        },
    }
}

/// Reading an optional 64-bit integer field, with the same shape.
pub open spec fn spec_opt_i64(m: JsonModel, k: Seq<char>) -> Option<Option<i64>> {
    match model_entry(m, k) {
        Option::None => Some(None),
        Option::Some(x) => if model_is_null(x) {
            Some(None)
        } else {
            match model_int(x) {
                Option::Some(n) => Some(Some(n)),
                Option::None => None,
            }
        },
    }
}

/// Reading an optional 32-bit integer field: an integer outside the
/// 32-bit range is a type error.
pub open spec fn spec_opt_i32(m: JsonModel, k: Seq<char>) -> Option<Option<i32>> {
    match spec_opt_i64(m, k) {
        Option::None => None,
        Option::Some(None) => Some(None),
        Option::Some(Some(n)) => if i32::MIN <= n <= i32::MAX {
            Some(Some(n as i32))
        } else {
            None
        },
    }
}

/// Reading an optional boolean field, with the same shape.
pub open spec fn spec_opt_bool(m: JsonModel, k: Seq<char>) -> Option<Option<bool>> {
    match model_entry(m, k) {
        Option::None => Some(None),
        Option::Some(x) => if model_is_null(x) {
            Some(None)
        } else {
            match model_bool(x) {
                Option::Some(b) => Some(Some(b)),
                Option::None => None,
            }
        },
    }
}

/// Reading an optional numeric field as its rendered text.
pub open spec fn spec_opt_num_text(m: JsonModel, k: Seq<char>) -> Option<Option<Seq<char>>> {
    match model_entry(m, k) {
        Option::None => Some(None),
        Option::Some(x) => if model_is_null(x) {
            Some(None)
        } else {
            match model_num_text(x) {
                Option::Some(t) => Some(Some(t)),
                Option::None => None,
            }
        },
    }
}

/// Reading an optional list-of-strings field: a non-array value or a
/// non-string element is a type error.
pub open spec fn spec_opt_string_list(m: JsonModel, k: Seq<char>) -> Option<
    Option<Seq<Seq<char>>>,
> {
    match model_entry(m, k) {
        Option::None => Some(None),
        Option::Some(x) => if model_is_null(x) {
            Some(None)
        } else {
            match model_arr(x) {
                Option::Some(ms) => if all_str_items(ms) {
                    Some(Some(str_items(ms)))
                } else {
                    None
                },
                Option::None => None,
            }
        },
    }
}

/// A `PayloadParseError` with its context joined to the detail.
pub(crate) fn payload_err(context: &str, detail: &str) -> (e: IngestError)
    ensures
        e matches IngestError::PayloadParseError(m) && m@ == context@ + detail@,
{
    IngestError::PayloadParseError(context.to_owned().concat(detail))
}

/// Reads an optional string field of a JSON object: an absent or null
/// field is `None`; a present value of any other kind than a string is a
/// `PayloadParseError` naming the field.
pub(crate) fn read_opt_string(v: &serde_json::Value, key: &str) -> (r: Result<
    Option<String>,
    IngestError,
>)
    ensures
        r matches Ok(o) ==> spec_opt_string(crate::json::json_model(*v), key@) == Some(opt_str_view(o)),
        r is Ok <==> spec_opt_string(crate::json::json_model(*v), key@) is Some,
        r matches Err(e) ==> e matches IngestError::PayloadParseError(_),
{
    match json_get(v, key) {
        None => Ok(None),
        Some(x) => {
            if json_is_null(x) {
                Ok(None)
            } else {
                match json_as_string(x) {
                    Some(s) => Ok(Some(s)),
                    None => Err(payload_err("field is not a string: ", key)),
                }
            }
        },
    }
}

/// Reads an optional 64-bit integer field; absent or null is `None`, a
/// non-integer value is a `PayloadParseError`.
pub(crate) fn read_opt_i64(v: &serde_json::Value, key: &str) -> (r: Result<
    Option<i64>,
    IngestError,
>)
    ensures
        r matches Ok(o) ==> spec_opt_i64(crate::json::json_model(*v), key@) == Some(o),
        r is Ok <==> spec_opt_i64(crate::json::json_model(*v), key@) is Some,
        r matches Err(e) ==> e matches IngestError::PayloadParseError(_),
{
    match json_get(v, key) {
        None => Ok(None),
        Some(x) => {
            if json_is_null(x) {
                Ok(None)
            } else {
                match json_as_i64(x) {
                    Some(n) => Ok(Some(n)),
                    None => Err(payload_err("field is not an integer: ", key)),
                }
            }
        },
    }
}

/// Reads an optional 32-bit integer field; an integer outside the 32-bit
/// range is a `PayloadParseError`, as a typed decoder would report it.
pub(crate) fn read_opt_i32(v: &serde_json::Value, key: &str) -> (r: Result<
    Option<i32>,
    IngestError,
>)
    ensures
        r matches Ok(o) ==> spec_opt_i32(crate::json::json_model(*v), key@) == Some(o),
        r is Ok <==> spec_opt_i32(crate::json::json_model(*v), key@) is Some,
        r matches Err(e) ==> e matches IngestError::PayloadParseError(_),
{
    match read_opt_i64(v, key) {
        Ok(None) => Ok(None),
        Ok(Some(n)) => {
            if i32::MIN as i64 <= n && n <= i32::MAX as i64 {
                Ok(Some(n as i32))
            } else {
                Err(payload_err("integer field out of 32-bit range: ", key))
            }
        },
        Err(e) => Err(e),
    }
}

/// Reads an optional boolean field; absent or null is `None`, any other
/// non-boolean value is a `PayloadParseError`.
pub(crate) fn read_opt_bool(v: &serde_json::Value, key: &str) -> (r: Result<
    Option<bool>,
    IngestError,
>)
    ensures
        r matches Ok(o) ==> spec_opt_bool(crate::json::json_model(*v), key@) == Some(o),
        r is Ok <==> spec_opt_bool(crate::json::json_model(*v), key@) is Some,
        r matches Err(e) ==> e matches IngestError::PayloadParseError(_),
{
    match json_get(v, key) {
        None => Ok(None),
        Some(x) => {
            if json_is_null(x) {
                Ok(None)
            } else {
                match json_as_bool(x) {
                    Some(b) => Ok(Some(b)),
                    None => Err(payload_err("field is not a boolean: ", key)),
                }
            }
        },
    }
}

/// Reads an optional numeric field, keeping the number's literal text;
/// absent or null is `None`, a non-numeric value is a `PayloadParseError`.
/// The text form keeps floating point out of the verified core.
pub(crate) fn read_opt_number_text(v: &serde_json::Value, key: &str) -> (r: Result<
    Option<String>,
    IngestError,
>)
    ensures
        r matches Ok(o) ==> spec_opt_num_text(crate::json::json_model(*v), key@) == Some(opt_str_view(o)),
        r is Ok <==> spec_opt_num_text(crate::json::json_model(*v), key@) is Some,
        r matches Err(e) ==> e matches IngestError::PayloadParseError(_),
{
    match json_get(v, key) {
        None => Ok(None),
        Some(x) => {
            if json_is_null(x) {
                Ok(None)
            } else {
                match json_number_text(x) {
                    Some(t) => Ok(Some(t)),
                    None => Err(payload_err("field is not a number: ", key)),
                }
            }
        },
    }
}

/// Reads an optional list-of-strings field; absent or null is `None`, a
/// non-array value or a non-string element is a `PayloadParseError`.
pub(crate) fn read_opt_string_list(v: &serde_json::Value, key: &str) -> (r: Result<
    Option<Vec<String>>,
    IngestError,
>)
    ensures
        r matches Ok(o) ==> spec_opt_string_list(crate::json::json_model(*v), key@) == Some(opt_strs_view(o)),
        r is Ok <==> spec_opt_string_list(crate::json::json_model(*v), key@) is Some,
        r matches Err(e) ==> e matches IngestError::PayloadParseError(_),
{
    let field = match json_get(v, key) {
        None => {
            return Ok(None);
        },
        Some(x) => x,
    };
    if json_is_null(field) {
        return Ok(None);
    }
    let arr = match json_as_array(field) {
        Some(a) => a,
        None => {
            return Err(payload_err("field is not an array: ", key));
        },
    };
    let ghost ms = model_arr(crate::json::json_model(*field)).unwrap();
    let mut out: Vec<String> = Vec::new();
    let mut i: usize = 0;
    while i < arr.len()
        invariant
            model_entry(crate::json::json_model(*v), key@) == Some(crate::json::json_model(*field)),
            !model_is_null(crate::json::json_model(*field)),
            model_arr(crate::json::json_model(*field)) == Some(ms),
            arr@.len() == ms.len(),
            forall|q: int| 0 <= q < ms.len() ==> crate::json::json_model(arr@[q]) == ms[q],
            i <= ms.len(),
            out@.len() == i,
            forall|q: int| 0 <= q < i ==> model_str(#[trigger] ms[q]) is Some,
            forall|q: int| 0 <= q < i ==> out@[q]@ == model_str(#[trigger] ms[q]).unwrap(),
        decreases arr@.len() - i,
    {
        match json_as_string(&arr[i]) {
            Some(s) => out.push(s),
            None => {
                proof {
                    assert(model_str(ms[i as int]) is None);
                    assert(!all_str_items(ms));
                }
                return Err(payload_err("array element is not a string: ", key));
            },
        }
        i = i + 1;
    }
    proof {
        assert(all_str_items(ms));
        assert(strs_view(out@) =~= str_items(ms));
    }
    Ok(Some(out))
}

} // verus!
