use vstd::prelude::*;

use crate::dto::{ReqAddCompanyDto, ReqAddDepartmentDto, ReqQueryCompanyDto, ResQueryCompanyDto};
use crate::error::{DbFailure, DomainError};
use crate::ids::{id_text, lemma_uuid_text_injective, uuid_hyphenated};
use crate::text::{chars_of, contains_chars, contains_seq};

verus! {

/// A stored company.
pub struct CompanyRecord {
    pub id: u128,
    pub name: String,
}

/// A stored department, owned by the company `company_id`.
pub struct DepartmentRecord {
    pub id: u128,
    pub name: String,
    pub company_id: u128,
}

/// What the store holds: companies as `(id, name)` and departments as
/// `(id, name, company_id)`, in insertion order.
pub struct StoreContents {
    pub companies: Seq<(u128, Seq<char>)>,
    pub departments: Seq<(u128, Seq<char>, u128)>,
}

pub open spec fn has_company(v: StoreContents, id: u128) -> bool {
    exists|i: int| 0 <= i < v.companies.len() && (#[trigger] v.companies[i]).0 == id
}

pub open spec fn has_company_name(v: StoreContents, name: Seq<char>) -> bool {
    exists|i: int| 0 <= i < v.companies.len() && (#[trigger] v.companies[i]).1 == name
}

pub open spec fn has_department(v: StoreContents, id: u128) -> bool {
    exists|i: int| 0 <= i < v.departments.len() && (#[trigger] v.departments[i]).0 == id
}

pub open spec fn has_department_name(v: StoreContents, name: Seq<char>) -> bool {
    exists|i: int| 0 <= i < v.departments.len() && (#[trigger] v.departments[i]).1 == name
}

/// Ids and names are unique per table, and every department refers to a
/// company that is present.
pub open spec fn well_formed(v: StoreContents) -> bool {
    &&& forall|i: int, j: int|
        #![trigger v.companies[i], v.companies[j]]
        0 <= i < j < v.companies.len() ==> v.companies[i].0 != v.companies[j].0
            && v.companies[i].1 != v.companies[j].1
    &&& forall|i: int, j: int|
        #![trigger v.departments[i], v.departments[j]]
        0 <= i < j < v.departments.len() ==> v.departments[i].0 != v.departments[j].0
            && v.departments[i].1 != v.departments[j].1
    &&& forall|i: int|
        0 <= i < v.departments.len() ==> has_company(v, (#[trigger] v.departments[i]).2)
}

/// Whether a company `(id, name)` can be inserted.
pub open spec fn company_insert_ok(v: StoreContents, id: u128, name: Seq<char>) -> bool {
    !has_company(v, id) && !has_company_name(v, name)
}

pub open spec fn company_inserted(v: StoreContents, id: u128, name: Seq<char>) -> StoreContents {
    StoreContents { companies: v.companies.push((id, name)), departments: v.departments }
}

/// Whether a department `(id, name, company_id)` can be inserted.
pub open spec fn department_insert_ok(
    v: StoreContents,
    id: u128,
    name: Seq<char>,
    company_id: u128,
) -> bool {
    has_company(v, company_id) && !has_department(v, id) && !has_department_name(v, name)
}

pub open spec fn department_inserted(
    v: StoreContents,
    id: u128,
    name: Seq<char>,
    company_id: u128,
) -> StoreContents {
    StoreContents { companies: v.companies, departments: v.departments.push((id, name, company_id)) }
}

/// The companies whose name contains `pat`, in store order.
pub open spec fn listed(rows: Seq<(u128, Seq<char>)>, pat: Seq<char>) -> Seq<(u128, Seq<char>)>
    decreases rows.len(),
{
    if rows.len() == 0 {
        Seq::empty()
    } else {
        let prev = listed(rows.drop_last(), pat);
        if contains_seq(rows.last().1, pat) {
            prev.push(rows.last())
        } else {
            prev
        }
    }
}

/// A listed company as the query returns it: id text and name.
pub open spec fn public_row(row: (u128, Seq<char>)) -> (Seq<char>, Seq<char>) {
    (uuid_hyphenated(row.0), row.1)
}

pub open spec fn public_rows(rows: Seq<(u128, Seq<char>)>) -> Seq<(Seq<char>, Seq<char>)> {
    rows.map_values(|row: (u128, Seq<char>)| public_row(row))
}

pub open spec fn res_view(r: Seq<ResQueryCompanyDto>) -> Seq<(Seq<char>, Seq<char>)> {
    r.map_values(|d: ResQueryCompanyDto| (d.id@, d.name@))
}

/// The name fragment a query filters by; absent means no filter.
pub open spec fn query_pattern(cond: ReqQueryCompanyDto) -> Seq<char> {
    match cond.name {
        Some(n) => n@,
        None => Seq::empty(),
    }
}

/// How many of the rows carry `name`.
pub open spec fn count_named(rows: Seq<(Seq<char>, Seq<char>)>, name: Seq<char>) -> nat
    decreases rows.len(),
{
    if rows.len() == 0 {
        0
    } else {
        count_named(rows.drop_last(), name) + if rows.last().1 == name {
            1nat
        } else {
            0nat
        }
    }
}

proof fn lemma_public_rows_drop_last(rows: Seq<(u128, Seq<char>)>)
    requires
        rows.len() > 0,
    ensures
        public_rows(rows).drop_last() == public_rows(rows.drop_last()),
        public_rows(rows).last() == public_row(rows.last()),
{
    assert(public_rows(rows).drop_last() =~= public_rows(rows.drop_last()));
}

proof fn lemma_count_absent(rows: Seq<(u128, Seq<char>)>, name: Seq<char>)
    requires
        forall|i: int| 0 <= i < rows.len() ==> (#[trigger] rows[i]).1 != name,
    ensures
        count_named(public_rows(rows), name) == 0,
    decreases rows.len(),
{
    if rows.len() > 0 {
        lemma_public_rows_drop_last(rows);
        let init = rows.drop_last();
        assert forall|i: int| 0 <= i < init.len() implies (#[trigger] init[i]).1 != name by {
            assert(init[i] == rows[i]);
        }
        lemma_count_absent(init, name);
        assert(rows.last() == rows[rows.len() - 1]);
    }
}

/// Without a filter, the query lists every company, in store order.
pub proof fn lemma_unfiltered_query_lists_all(rows: Seq<(u128, Seq<char>)>)
    ensures
        listed(rows, Seq::empty()) == rows,
    decreases rows.len(),
{
    if rows.len() > 0 {
        lemma_unfiltered_query_lists_all(rows.drop_last());
        let last = rows.last().1;
        let e = Seq::<char>::empty();
        assert(last.subrange(0, 0 + e.len() as int) =~= e);
        assert(rows.drop_last().push(rows.last()) =~= rows);
    }
}

proof fn lemma_query_no_match(rows: Seq<(u128, Seq<char>)>, pat: Seq<char>)
    requires
        forall|i: int| 0 <= i < rows.len() ==> !contains_seq((#[trigger] rows[i]).1, pat),
    ensures
        listed(rows, pat) == Seq::<(u128, Seq<char>)>::empty(),
    decreases rows.len(),
{
    if rows.len() > 0 {
        let init = rows.drop_last();
        assert forall|i: int| 0 <= i < init.len() implies !contains_seq((#[trigger] init[i]).1, pat) by {
            assert(init[i] == rows[i]);
        }
        lemma_query_no_match(init, pat);
        assert(rows.last() == rows[rows.len() - 1]);
    }
}

/// When the fragment occurs in one company's name only, the filtered
/// query lists that company alone.
pub proof fn lemma_query_single_match(rows: Seq<(u128, Seq<char>)>, pat: Seq<char>, j: int)
    requires
        0 <= j < rows.len(),
        contains_seq(rows[j].1, pat),
        forall|i: int| 0 <= i < rows.len() && i != j ==> !contains_seq((#[trigger] rows[i]).1, pat),
    ensures
        listed(rows, pat) == seq![rows[j]],
    decreases rows.len(),
{
    let init = rows.drop_last();
    assert(rows.last() == rows[rows.len() - 1]);
    if j == rows.len() - 1 {
        assert forall|i: int| 0 <= i < init.len() implies !contains_seq((#[trigger] init[i]).1, pat) by {
            assert(init[i] == rows[i]);
        }
        lemma_query_no_match(init, pat);
        assert(Seq::<(u128, Seq<char>)>::empty().push(rows[j]) =~= seq![rows[j]]);
    } else {
        assert forall|i: int| 0 <= i < init.len() && i != j implies !contains_seq(
            (#[trigger] init[i]).1,
            pat,
        ) by {
            assert(init[i] == rows[i]);
        }
        assert(init[j] == rows[j]);
        lemma_query_single_match(init, pat, j);
    }
}

/// A company that was added is listed exactly once by a query without
/// filter.
pub proof fn lemma_added_company_listed_once(v: StoreContents, id: u128, name: Seq<char>)
    requires
        well_formed(v),
        company_insert_ok(v, id, name),
    ensures
        count_named(public_rows(listed(company_inserted(v, id, name).companies, Seq::empty())), name)
            == 1,
{
    let rows = company_inserted(v, id, name).companies;
    lemma_unfiltered_query_lists_all(rows);
    assert forall|i: int| 0 <= i < v.companies.len() implies (#[trigger] v.companies[i]).1
        != name by {}
    lemma_count_absent(v.companies, name);
    lemma_public_rows_drop_last(rows);
    assert(rows.drop_last() =~= v.companies);
}

/// How many of the rows carry the id text `id`.
pub open spec fn count_with_id(rows: Seq<(Seq<char>, Seq<char>)>, id: Seq<char>) -> nat
    decreases rows.len(),
{
    if rows.len() == 0 {
        0
    } else {
        count_with_id(rows.drop_last(), id) + if rows.last().0 == id {
            1nat
        } else {
            0nat
        }
    }
}

proof fn lemma_count_id_absent(rows: Seq<(u128, Seq<char>)>, id: u128)
    requires
        forall|i: int| 0 <= i < rows.len() ==> (#[trigger] rows[i]).0 != id,
    ensures
        count_with_id(public_rows(rows), uuid_hyphenated(id)) == 0,
    decreases rows.len(),
{
    if rows.len() > 0 {
        lemma_public_rows_drop_last(rows);
        let init = rows.drop_last();
        assert forall|i: int| 0 <= i < init.len() implies (#[trigger] init[i]).0 != id by {
            assert(init[i] == rows[i]);
        }
        lemma_count_id_absent(init, id);
        assert(rows.last() == rows[rows.len() - 1]);
        if uuid_hyphenated(rows.last().0) == uuid_hyphenated(id) {
            lemma_uuid_text_injective(rows.last().0, id);
        }
    }
}

/// A company that was added is listed exactly once, under its id, by a
/// query without filter, and the row under that id carries its name.
pub proof fn lemma_added_company_listed_once_by_id(v: StoreContents, id: u128, name: Seq<char>)
    requires
        well_formed(v),
        company_insert_ok(v, id, name),
    ensures
        count_with_id(
            public_rows(listed(company_inserted(v, id, name).companies, Seq::empty())),
            uuid_hyphenated(id),
        ) == 1,
        forall|i: int|
            0 <= i < v.companies.len() + 1 && (#[trigger] public_rows(
                listed(company_inserted(v, id, name).companies, Seq::empty()),
            )[i]).0 == uuid_hyphenated(id) ==> public_rows(
                listed(company_inserted(v, id, name).companies, Seq::empty()),
            )[i].1 == name,
{
    let rows = company_inserted(v, id, name).companies;
    lemma_unfiltered_query_lists_all(rows);
    assert forall|i: int| 0 <= i < v.companies.len() implies (#[trigger] v.companies[i]).0
        != id by {}
    lemma_count_id_absent(v.companies, id);
    lemma_public_rows_drop_last(rows);
    assert(rows.drop_last() =~= v.companies);
    let l = public_rows(rows);
    assert forall|i: int| 0 <= i < v.companies.len() + 1 && (#[trigger] l[i]).0 == uuid_hyphenated(
        id,
    ) implies l[i].1 == name by {
        assert(l[i] == public_row(rows[i]));
        lemma_uuid_text_injective(rows[i].0, id);
        if i < v.companies.len() {
            assert(rows[i] == v.companies[i]);
        }
    }
}

/// Once a name is taken, adding a company with that name again is
/// refused, whatever id it comes with.
pub proof fn lemma_duplicate_company_refused(v: StoreContents, id: u128, other_id: u128, name: Seq<char>)
    requires
        company_insert_ok(v, id, name),
    ensures
        !company_insert_ok(company_inserted(v, id, name), other_id, name),
{
    let w = company_inserted(v, id, name);
    assert(w.companies[v.companies.len() as int].1 == name);
}

/// A department that was added is present under its id, with its name
/// and its owning company, and that company is present.
pub proof fn lemma_added_department_retrievable(
    v: StoreContents,
    id: u128,
    name: Seq<char>,
    company_id: u128,
)
    requires
        department_insert_ok(v, id, name, company_id),
    ensures
        has_department(department_inserted(v, id, name, company_id), id),
        department_inserted(v, id, name, company_id).departments.last() == (id, name, company_id),
        has_company(department_inserted(v, id, name, company_id), company_id),
{
    let w = department_inserted(v, id, name, company_id);
    assert(w.departments[v.departments.len() as int] == (id, name, company_id));
    let k = choose|k: int| 0 <= k < v.companies.len() && (#[trigger] v.companies[k]).0 == company_id;
    assert(w.companies[k].0 == company_id);
}

/// What the store held when a transaction began.
pub struct TxMark {
    companies_len: usize,
    departments_len: usize,
    snapshot: Ghost<StoreContents>,
}

impl TxMark {
    pub closed spec fn snapshot(self) -> StoreContents {
        self.snapshot@
    }

    pub closed spec fn wf(self) -> bool {
        &&& self.companies_len == self.snapshot@.companies.len()
        &&& self.departments_len == self.snapshot@.departments.len()
        &&& well_formed(self.snapshot@)
    }
}

/// `a` holds `b` with rows appended after it.
pub open spec fn extends(a: StoreContents, b: StoreContents) -> bool {
    &&& b.companies.len() <= a.companies.len()
    &&& b.departments.len() <= a.departments.len()
    &&& a.companies.subrange(0, b.companies.len() as int) == b.companies
    &&& a.departments.subrange(0, b.departments.len() as int) == b.departments
}

/// An in-memory organization store with the constraints of the persisted
/// schema: unique ids and names, and departments that refer to a company.
pub struct OrgStore {
    companies: Vec<CompanyRecord>,
    departments: Vec<DepartmentRecord>,
}

impl View for OrgStore {
    type V = StoreContents;

    closed spec fn view(&self) -> StoreContents {
        StoreContents {
            companies: self.companies@.map_values(|c: CompanyRecord| (c.id, c.name@)),
            departments: self.departments@.map_values(
                |d: DepartmentRecord| (d.id, d.name@, d.company_id),
            ),
        }
    }
}

impl OrgStore {
    pub fn new() -> (r: Self)
        ensures
            r@.companies == Seq::<(u128, Seq<char>)>::empty(),
            r@.departments == Seq::<(u128, Seq<char>, u128)>::empty(),
            well_formed(r@),
    {
        let r = OrgStore { companies: Vec::new(), departments: Vec::new() };
        assert(r@.companies =~= Seq::<(u128, Seq<char>)>::empty());
        assert(r@.departments =~= Seq::<(u128, Seq<char>, u128)>::empty());
        r
    }

    /// Whether a company with this id is present.
    pub fn company_exists(&self, id: u128) -> (r: bool)
        ensures
            r == has_company(self@, id),
    {
        let n = self.companies.len();
        let mut i: usize = 0;
        while i < n
            invariant
                n == self.companies@.len(),
                i <= n,
                forall|k: int| 0 <= k < i ==> (#[trigger] self@.companies[k]).0 != id,
            decreases n - i,
        {
            if self.companies[i].id == id {
                assert(self@.companies[i as int].0 == id);
                return true;
            }
            i = i + 1;
        }
        false
    }

    fn has_name(&self, name: &String) -> (r: bool)
        ensures
            r == has_company_name(self@, name@),
    {
        let n = self.companies.len();
        let mut i: usize = 0;
        while i < n
            invariant
                n == self.companies@.len(),
                i <= n,
                forall|k: int| 0 <= k < i ==> (#[trigger] self@.companies[k]).1 != name@,
            decreases n - i,
        {
            if self.companies[i].name == *name {
                assert(self@.companies[i as int].1 == name@);
                return true;
            }
            i = i + 1;
        }
        false
    }

    fn has_department_id_or_name(&self, id: u128, name: &String) -> (r: bool)
        ensures
            r == (has_department(self@, id) || has_department_name(self@, name@)),
    {
        let n = self.departments.len();
        let mut i: usize = 0;
        while i < n
            invariant
                n == self.departments@.len(),
                i <= n,
                forall|k: int|
                    0 <= k < i ==> (#[trigger] self@.departments[k]).0 != id
                        && self@.departments[k].1 != name@,
            decreases n - i,
        {
            if self.departments[i].id == id || self.departments[i].name == *name {
                assert(self@.departments[i as int].0 == id || self@.departments[i as int].1
                    == name@);
                return true;
            }
            i = i + 1;
        }
        false
    }

    /// Inserts a company; fails with a uniqueness violation, and changes
    /// nothing, when its id or its name is taken.
    pub fn add_company(&mut self, id: u128, com: ReqAddCompanyDto) -> (r: Result<u128, DomainError>)
        requires
            well_formed(old(self)@),
        ensures
            well_formed(final(self)@),
            r is Ok <==> company_insert_ok(old(self)@, id, com.name@),
            r is Ok ==> r->Ok_0 == id && final(self)@ == company_inserted(old(self)@, id, com.name@),
            r is Err ==> final(self)@ == old(self)@ && r->Err_0 matches DomainError::DbError(
                DbFailure::UniqueViolation(_),
            ),
    {
        if self.company_exists(id) || self.has_name(&com.name) {
            return Err(DomainError::DbError(DbFailure::UniqueViolation("duplicate key value violates unique constraint on companies".to_owned())));
        }
        let ghost v0 = self@;
        self.companies.push(CompanyRecord { id, name: com.name });
        proof {
            let v = self@;
            assert(v.companies =~= v0.companies.push((id, com.name@)));
            assert(v.departments =~= v0.departments);
            assert forall|i: int| 0 <= i < v.departments.len() implies has_company(
                v,
                (#[trigger] v.departments[i]).2,
            ) by {
                let k = choose|k: int|
                    0 <= k < v0.companies.len() && (#[trigger] v0.companies[k]).0
                        == v0.departments[i].2;
                assert(v.companies[k] == v0.companies[k]);
            }
            assert forall|i: int, j: int|
                #![trigger v.companies[i], v.companies[j]]
                0 <= i < j < v.companies.len() implies v.companies[i].0 != v.companies[j].0
                && v.companies[i].1 != v.companies[j].1 by {
                if j == v0.companies.len() {
                    assert(v.companies[i] == v0.companies[i]);
                    assert(v0.companies[i].0 != id);
                    assert(v0.companies[i].1 != com.name@);
                } else {
                    assert(v.companies[i] == v0.companies[i]);
                    assert(v.companies[j] == v0.companies[j]);
                }
            }
            assert(v =~= company_inserted(v0, id, com.name@));
        }
        Ok(id)
    }

    /// Inserts a department; fails, and changes nothing, when its company is
    /// absent (a broken reference) or its id or name is taken.
    pub fn add_department(&mut self, id: u128, dep: ReqAddDepartmentDto) -> (r: Result<
        u128,
        DomainError,
    >)
        requires
            well_formed(old(self)@),
        ensures
            well_formed(final(self)@),
            r is Ok <==> department_insert_ok(old(self)@, id, dep.name@, dep.company_id),
            r is Ok ==> r->Ok_0 == id && final(self)@ == department_inserted(
                old(self)@,
                id,
                dep.name@,
                dep.company_id,
            ),
            r is Err ==> final(self)@ == old(self)@,
            !has_company(old(self)@, dep.company_id) ==> r matches Err(
                DomainError::DbError(DbFailure::Other(_)),
            ),
            has_company(old(self)@, dep.company_id) && r is Err ==> r->Err_0 matches DomainError::DbError(
                DbFailure::UniqueViolation(_),
            ),
    {
        if !self.company_exists(dep.company_id) {
            return Err(DomainError::DbError(DbFailure::Other("insert violates foreign key constraint on departments.company_id".to_owned())));
        }
        if self.has_department_id_or_name(id, &dep.name) {
            return Err(DomainError::DbError(DbFailure::UniqueViolation("duplicate key value violates unique constraint on departments".to_owned())));
        }
        let ghost v0 = self@;
        self.departments.push(DepartmentRecord { id, name: dep.name, company_id: dep.company_id });
        proof {
            let v = self@;
            assert(v.departments =~= v0.departments.push((id, dep.name@, dep.company_id)));
            assert(v.companies =~= v0.companies);
            assert forall|i: int| 0 <= i < v.departments.len() implies has_company(
                v,
                (#[trigger] v.departments[i]).2,
            ) by {
                if i < v0.departments.len() {
                    assert(v.departments[i] == v0.departments[i]);
                }
            }
            assert forall|i: int, j: int|
                #![trigger v.departments[i], v.departments[j]]
                0 <= i < j < v.departments.len() implies v.departments[i].0 != v.departments[j].0
                && v.departments[i].1 != v.departments[j].1 by {
                assert(v.departments[i] == v0.departments[i]);
                if j < v0.departments.len() {
                    assert(v.departments[j] == v0.departments[j]);
                }
            }
            assert(v =~= department_inserted(v0, id, dep.name@, dep.company_id));
        }
        Ok(id)
    }

    /// The companies whose name contains the filter's fragment, in store
    /// order; all of them when the filter is absent or empty.
    pub fn query(&self, cond: &ReqQueryCompanyDto) -> (r: Vec<ResQueryCompanyDto>)
        ensures
            res_view(r@) == public_rows(listed(self@.companies, query_pattern(*cond))),
    {
        let pat: Vec<char> = match &cond.name {
            Some(n) => chars_of(n.as_str()),
            None => Vec::new(),
        };
        assert(pat@ =~= query_pattern(*cond));
        let ghost rows = self@.companies;
        let n = self.companies.len();
        let mut out: Vec<ResQueryCompanyDto> = Vec::new();
        let mut i: usize = 0;
        while i < n
            invariant
                n == self.companies@.len(),
                rows == self@.companies,
                pat@ == query_pattern(*cond),
                i <= n,
                res_view(out@) == public_rows(listed(rows.take(i as int), pat@)),
            decreases n - i,
        {
            let c = &self.companies[i];
            let name = chars_of(c.name.as_str());
            proof {
                let t = rows.take(i as int + 1);
                assert(t.drop_last() =~= rows.take(i as int));
                assert(t.last() == rows[i as int]);
            }
            if contains_chars(&name, &pat) {
                let ghost before = out@;
                out.push(ResQueryCompanyDto { id: id_text(c.id), name: c.name.clone() });
                proof {
                    let prev = listed(rows.take(i as int), pat@);
                    assert(out@ =~= before.push(out@.last()));
                    assert(res_view(out@) =~= res_view(before).push(public_row(rows[i as int])));
                    assert(public_rows(prev.push(rows[i as int])) =~= public_rows(prev).push(
                        public_row(rows[i as int]),
                    ));
                }
            }
            i = i + 1;
        }
        assert(rows.take(n as int) =~= rows);
        out
    }

    /// Starts a unit of work: remembers what the store holds now.
    pub fn begin(&self) -> (m: TxMark)
        requires
            well_formed(self@),
        ensures
            m.wf(),
            m.snapshot() == self@,
    {
        TxMark {
            companies_len: self.companies.len(),
            departments_len: self.departments.len(),
            snapshot: Ghost(self@),
        }
    }

    /// Ends a unit of work, keeping what it wrote.
    pub fn commit(&self, m: TxMark)
        requires
            m.wf(),
            extends(self@, m.snapshot()),
    {
    }

    /// Ends a unit of work, undoing what it wrote.
    pub fn rollback(&mut self, m: TxMark)
        requires
            m.wf(),
            extends(old(self)@, m.snapshot()),
        ensures
            final(self)@ == m.snapshot(),
            well_formed(final(self)@),
    {
        let ghost v0 = self@;
        self.companies.truncate(m.companies_len);
        self.departments.truncate(m.departments_len);
        proof {
            assert(self@.companies =~= v0.companies.subrange(0, m.companies_len as int));
            assert(self@.departments =~= v0.departments.subrange(0, m.departments_len as int));
            assert(self@ =~= m.snapshot());
        }
    }
}

} // verus!
