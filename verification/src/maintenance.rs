//! Table maintenance: bringing a table out of set-integrity-pending state
//! and refreshing its statistics, each when the catalog says it is due.

use vstd::prelude::*;
use vstd::string::*;
use vstd::utf8::*;
use crate::catalog::{CatalogQuery, param_views};
use crate::conversions::utf8_to_string;
use crate::identifier::{check_object_names, is_valid_name, NameError};

verus! {

/// The maintenance operations.
#[derive(PartialEq, Eq, Structural, Clone, Copy, Debug)]
pub enum MaintenanceKind {
    /// `SET INTEGRITY ... IMMEDIATE CHECKED`, for a table in
    /// set-integrity-pending state (`status = 'C'`).
    SetIntegrity,
    /// `RUNSTATS ... ON KEY COLUMNS`, for a table in normal state
    /// (`status = 'N'`).
    Runstats,
}

/// The statement that counts the tables of a name in the state the
/// operation applies to.
pub open spec fn probe_sql(kind: MaintenanceKind) -> Seq<char> {
    match kind {
        MaintenanceKind::SetIntegrity => "SELECT COUNT(1) FROM syscat.tables WHERE tabschema = UPPER(?) AND tabname = UPPER(?) AND status = 'C' FOR READ ONLY"@,
        MaintenanceKind::Runstats => "SELECT COUNT(1) FROM syscat.tables WHERE tabschema = UPPER(?) AND tabname = UPPER(?) AND status = 'N' FOR READ ONLY"@,
    }
}

/// The text before the qualified table name in the operation's statement.
pub open spec fn command_prefix(kind: MaintenanceKind) -> Seq<char> {
    match kind {
        MaintenanceKind::SetIntegrity => "SET INTEGRITY FOR "@,
        MaintenanceKind::Runstats => "CALL ADMIN_CMD ('RUNSTATS ON TABLE "@,
    }
}

/// The text after the qualified table name in the operation's statement.
pub open spec fn command_suffix(kind: MaintenanceKind) -> Seq<char> {
    match kind {
        MaintenanceKind::SetIntegrity => " IMMEDIATE CHECKED"@,
        MaintenanceKind::Runstats => " ON KEY COLUMNS')"@,
    }
}

/// The operation's statement for `schema.name`.
pub open spec fn command_sql(kind: MaintenanceKind, schema: Seq<char>, name: Seq<char>) -> Seq<
    char,
> {
    command_prefix(kind) + schema + "."@ + name + command_suffix(kind)
}

/// One maintenance operation on one table, with the count the catalog
/// probe has returned so far. Its names have always passed the check.
pub struct MaintenanceJob {
    kind: MaintenanceKind,
    schema: String,
    name: String,
    count: i32,
}

impl MaintenanceJob {
    #[verifier::type_invariant]
    spec fn names_checked(self) -> bool {
        is_valid_name(self.schema@) && is_valid_name(self.name@)
    }

    /// The operation.
    pub closed spec fn kind_spec(self) -> MaintenanceKind {
        self.kind
    }

    /// The schema name.
    pub closed spec fn schema_spec(self) -> Seq<char> {
        self.schema@
    }

    /// The table name.
    pub closed spec fn name_spec(self) -> Seq<char> {
        self.name@
    }

    /// The count read from the probe so far.
    pub closed spec fn count_spec(self) -> i32 {
        self.count
    }

    /// A job for `kind` on `tabschema.tabname`, after both names are
    /// checked; its count starts at 0.
    pub fn new(kind: MaintenanceKind, tabschema: &str, tabname: &str) -> (r: Result<
        MaintenanceJob,
        NameError,
    >)
        ensures
            r is Ok <==> is_valid_name(tabschema@) && is_valid_name(tabname@),
            !is_valid_name(tabschema@) ==> (r matches Err(NameError::IllegalSchema(s)) && s@
                == tabschema@),
            is_valid_name(tabschema@) && !is_valid_name(tabname@) ==> (r matches Err(
                NameError::IllegalName(s),
            ) && s@ == tabname@),
            r matches Ok(j) ==> j.kind_spec() == kind && j.schema_spec() == tabschema@
                && j.name_spec() == tabname@ && j.count_spec() == 0,
    {
        match check_object_names(tabschema, tabname) {
            Err(e) => Err(e),
            Ok(()) => Ok(
                MaintenanceJob {
                    kind,
                    schema: tabschema.to_owned(),
                    name: tabname.to_owned(),
                    count: 0,
                },
            ),
        }
    }

    /// The operation.
    pub fn kind(&self) -> (r: MaintenanceKind)
        ensures
            r == self.kind_spec(),
    {
        self.kind
    }

    /// The schema name.
    pub fn schema(&self) -> (r: &str)
        ensures
            r@ == self.schema_spec(),
    {
        self.schema.as_str()
    }

    /// The table name.
    pub fn name(&self) -> (r: &str)
        ensures
            r@ == self.name_spec(),
    {
        self.name.as_str()
    }

    /// The count read from the probe so far.
    pub fn count(&self) -> (r: i32)
        ensures
            r == self.count_spec(),
    {
        self.count
    }

    /// The catalog query that tells whether the table is in the state the
    /// operation applies to.
    pub fn probe_query(&self) -> (r: CatalogQuery)
        ensures
            r.sql@ == probe_sql(self.kind_spec()),
            param_views(r) == seq![self.schema_spec(), self.name_spec()],
    {
        let sql = match self.kind {
            MaintenanceKind::SetIntegrity => "SELECT COUNT(1) FROM syscat.tables WHERE tabschema = UPPER(?) AND tabname = UPPER(?) AND status = 'C' FOR READ ONLY".to_owned(),
            MaintenanceKind::Runstats => "SELECT COUNT(1) FROM syscat.tables WHERE tabschema = UPPER(?) AND tabname = UPPER(?) AND status = 'N' FOR READ ONLY".to_owned(),
        };
        let mut params: Vec<String> = Vec::new();
        params.push(self.schema.clone());
        params.push(self.name.clone());
        assert(params@.map_values(|p: String| p@) =~= seq![self.schema@, self.name@]);
        CatalogQuery { sql, params }
    }

    /// Takes one row of the probe into account: a non-null count replaces
    /// the count, a null leaves it as it was.
    pub fn record_row(&mut self, value: Option<i32>)
        ensures
            final(self).count_spec() == match value {
                Some(v) => v,
                None => old(self).count_spec(),
            },
            final(self).kind_spec() == old(self).kind_spec(),
            final(self).schema_spec() == old(self).schema_spec(),
            final(self).name_spec() == old(self).name_spec(),
    {
        proof {
            use_type_invariant(&*self);
        }
        if let Some(v) = value {
            self.count = v;
        }
    }

    /// Whether the operation is due: the probe counted exactly one table.
    pub fn is_due(&self) -> (r: bool)
        ensures
            r == (self.count_spec() == 1),
    {
        self.count == 1
    }

    /// The operation's statement, built from the checked names.
    pub fn command(&self) -> (r: String)
        ensures
            r@ == command_sql(self.kind_spec(), self.schema_spec(), self.name_spec()),
            is_valid_name(self.schema_spec()),
            is_valid_name(self.name_spec()),
    {
        proof {
            use_type_invariant(self);
        }
        let mut r = match self.kind {
            MaintenanceKind::SetIntegrity => "SET INTEGRITY FOR ".to_owned(),
            MaintenanceKind::Runstats => "CALL ADMIN_CMD ('RUNSTATS ON TABLE ".to_owned(),
        };
        r.append(self.schema.as_str());
        r.append(".");
        r.append(self.name.as_str());
        match self.kind {
            MaintenanceKind::SetIntegrity => r.append(" IMMEDIATE CHECKED"),
            MaintenanceKind::Runstats => r.append(" ON KEY COLUMNS')"),
        }
        r
    }
}

/// Checked names cannot end a maintenance statement early: the statement
/// built from them holds no `;`.
pub proof fn command_has_no_separator(kind: MaintenanceKind, schema: Seq<char>, name: Seq<char>)
    requires
        is_valid_name(schema),
        is_valid_name(name),
    ensures
        !command_sql(kind, schema, name).contains(';'),
{
    reveal_strlit("SET INTEGRITY FOR ");
    reveal_strlit("CALL ADMIN_CMD ('RUNSTATS ON TABLE ");
    reveal_strlit(" IMMEDIATE CHECKED");
    reveal_strlit(" ON KEY COLUMNS')");
    reveal_strlit(".");
    let c = command_sql(kind, schema, name);
    let pre = command_prefix(kind);
    let suf = command_suffix(kind);
    if c.contains(';') {
        let k = choose|k: int| 0 <= k < c.len() && c[k] == ';';
        if k < pre.len() {
            assert(pre[k] == ';');
        } else if k < pre.len() + schema.len() {
            assert(schema[k - pre.len()] == ';');
        } else if k == pre.len() + schema.len() {
            assert("."@[0] == ';');
        } else if k < pre.len() + schema.len() + 1 + name.len() {
            assert(name[k - pre.len() - schema.len() - 1] == ';');
        } else {
            assert(suf[k - pre.len() - schema.len() - 1 - name.len()] == ';');
        }
    }
}

/// The text of the first column the operation returned, when its bytes
/// are valid UTF-8; `None` when they are not.
pub fn result_text(bytes: Vec<u8>) -> (r: Option<String>)
    ensures
        r is Some <==> valid_utf8(bytes@),
        r matches Some(s) ==> s@ == decode_utf8(bytes@),
{
    utf8_to_string(bytes)
}

} // verus!
