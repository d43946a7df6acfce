use vstd::prelude::*;

use crate::error::{FieldError, ValidationErrors};
use crate::validator::Validate;

verus! {

/// The longest name a company or department may have, in characters.
pub const MAX_NAME_LEN: usize = 200;

pub open spec fn valid_name(s: Seq<char>) -> bool {
    1 <= s.len() <= MAX_NAME_LEN
}

pub open spec fn company_name_message() -> Seq<char> {
    "company's is required and max 200 characters."@
}

pub open spec fn department_name_message() -> Seq<char> {
    "add.department.name.required"@
}

/// The single violation reported for a bad `name` field.
pub open spec fn name_violation(v: ValidationErrors, message: Seq<char>) -> bool {
    &&& v.errors@.len() == 1
    &&& v.errors@[0].field@ == "name"@
    &&& v.errors@[0].message@ == message
}

fn name_error(message: &str) -> (r: ValidationErrors)
    ensures
        name_violation(r, message@),
{
    let e = FieldError { field: "name".to_owned(), message: message.to_owned() };
    ValidationErrors { errors: vec![e] }
}

/// Input of the add-company operation.
pub struct ReqAddCompanyDto {
    pub name: String,
}

impl Validate for ReqAddCompanyDto {
    open spec fn is_valid(&self) -> bool {
        valid_name(self.name@)
    }

    open spec fn reports(&self, e: ValidationErrors) -> bool {
        name_violation(e, company_name_message())
    }

    fn validate(&self) -> (r: Result<(), ValidationErrors>) {
        let n = self.name.as_str().unicode_len();
        if 1 <= n && n <= MAX_NAME_LEN {
            Ok(())
        } else {
            Err(name_error("company's is required and max 200 characters."))
        }
    }
}

/// Input of the query-company operation: an optional name fragment.
pub struct ReqQueryCompanyDto {
    pub name: Option<String>,
}

impl Validate for ReqQueryCompanyDto {
    open spec fn is_valid(&self) -> bool {
        true
    }

    open spec fn reports(&self, e: ValidationErrors) -> bool {
        false
    }

    fn validate(&self) -> (r: Result<(), ValidationErrors>) {
        Ok(())
    }
}

/// A character that `LIKE` reads as a wildcard or as its escape.
pub open spec fn like_special(c: char) -> bool {
    c == '%' || c == '_' || c == '\\'
}

/// `s` with a `\\` put before every wildcard and escape character, so
/// that `LIKE` reads it literally.
pub open spec fn like_escaped(s: Seq<char>) -> Seq<char>
    decreases s.len(),
{
    if s.len() == 0 {
        Seq::empty()
    } else {
        let c = s.last();
        like_escaped(s.drop_last()) + if like_special(c) {
            seq!['\\', c]
        } else {
            seq![c]
        }
    }
}

/// The `LIKE` pattern that selects the names containing the fragment;
/// none when there is no fragment or it is empty.
pub open spec fn like_pattern_of(q: ReqQueryCompanyDto) -> Option<Seq<char>> {
    match q.name {
        Some(n) => if n@.len() == 0 {
            None
        } else {
            Some(seq!['%'] + like_escaped(n@) + seq!['%'])
        },
        None => None,
    }
}

impl ReqQueryCompanyDto {
    /// The `LIKE` pattern for a storage query: the fragment, escaped and
    /// wrapped in `%`; none when the query lists every company.
    pub fn like_pattern(&self) -> (r: Option<String>)
        ensures
            r is None <==> like_pattern_of(*self) is None,
            r matches Some(p) ==> like_pattern_of(*self) == Some(p@),
    {
        let n = match &self.name {
            None => {
                return None;
            },
            Some(n) => n,
        };
        let len = n.as_str().unicode_len();
        if len == 0 {
            return None;
        }
        let mut out = "%".to_owned();
        proof {
            reveal_strlit("%");
            reveal_strlit("\\");
            assert(n@.subrange(0, 0) =~= Seq::<char>::empty());
            assert(out@ =~= seq!['%'] + like_escaped(n@.subrange(0, 0)));
        }
        let mut i: usize = 0;
        while i < len
            invariant
                len == n@.len(),
                i <= len,
                out@ == seq!['%'] + like_escaped(n@.subrange(0, i as int)),
            decreases len - i,
        {
            let c = n.as_str().get_char(i);
            let piece = n.as_str().substring_char(i, i + 1);
            proof {
                let t = n@.subrange(0, i as int + 1);
                assert(t.drop_last() =~= n@.subrange(0, i as int));
                assert(t.last() == c);
                assert(piece@ =~= seq![c]);
                reveal_strlit("\\");
            }
            if c == '%' || c == '_' || c == '\\' {
                out.append("\\");
            }
            out.append(piece);
            proof {
                let t = n@.subrange(0, i as int + 1);
                if like_special(c) {
                    assert(out@ =~= seq!['%'] + like_escaped(t.drop_last()) + seq!['\\', c]);
                } else {
                    assert(out@ =~= seq!['%'] + like_escaped(t.drop_last()) + seq![c]);
                }
            }
            i = i + 1;
        }
        out.append("%");
        proof {
            reveal_strlit("%");
            assert(n@.subrange(0, len as int) =~= n@);
            assert(out@ =~= seq!['%'] + like_escaped(n@) + seq!['%']);
        }
        Some(out)
    }
}

/// One company as the query operation returns it.
pub struct ResQueryCompanyDto {
    pub id: String,
    pub name: String,
}

/// Input of the add-department operation.
pub struct ReqAddDepartmentDto {
    pub name: String,
    pub company_id: u128,
}

impl Validate for ReqAddDepartmentDto {
    open spec fn is_valid(&self) -> bool {
        valid_name(self.name@)
    }

    open spec fn reports(&self, e: ValidationErrors) -> bool {
        name_violation(e, department_name_message())
    }

    fn validate(&self) -> (r: Result<(), ValidationErrors>) {
        let n = self.name.as_str().unicode_len();
        if 1 <= n && n <= MAX_NAME_LEN {
            Ok(())
        } else {
            Err(name_error("add.department.name.required"))
        }
    }
}

} // verus!
