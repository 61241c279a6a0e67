//! The user entity's sortable columns: the fixed allow-list from public
//! names to column handles, checked for shape at startup rather than by
//! open-ended dispatch at query time.
use vstd::prelude::*;
use vstd::string::StringExecFns;
use crate::repositories::query_config::{columns_view, ColumnRegistry};

verus! {

/// A sortable column of the users table.
#[derive(Debug, Clone, Copy, PartialEq, Eq, Structural)]
pub enum UserColumn {
    Id,
    Name,
    NormalizedName,
    Role,
    Confirmed,
    CreatedAt,
    DeletedAt,
}

/// The canonical allow-list for the users table.
pub open spec fn spec_user_columns() -> Seq<(Seq<char>, UserColumn)> {
    seq![
        (seq!['i', 'd'], UserColumn::Id),
        (seq!['n', 'a', 'm', 'e'], UserColumn::Name),
        (
            seq![
                'n', 'o', 'r', 'm', 'a', 'l', 'i', 'z', 'e', 'd', '_', 'n', 'a', 'm', 'e',
            ],
            UserColumn::NormalizedName,
        ),
        (seq!['r', 'o', 'l', 'e'], UserColumn::Role),
        (seq!['c', 'o', 'n', 'f', 'i', 'r', 'm', 'e', 'd'], UserColumn::Confirmed),
        (seq!['c', 'r', 'e', 'a', 't', 'e', 'd', '_', 'a', 't'], UserColumn::CreatedAt),
        (seq!['d', 'e', 'l', 'e', 't', 'e', 'd', '_', 'a', 't'], UserColumn::DeletedAt),
    ]
}

/// Builds the users allow-list.
pub fn users_registry() -> (r: ColumnRegistry<UserColumn>)
    ensures
        columns_view(r.entries@) == spec_user_columns(),
{
    let mut entries: Vec<(String, UserColumn)> = Vec::new();
    entries.push(("id".to_owned(), UserColumn::Id));
    entries.push(("name".to_owned(), UserColumn::Name));
    entries.push(("normalized_name".to_owned(), UserColumn::NormalizedName));
    entries.push(("role".to_owned(), UserColumn::Role));
    entries.push(("confirmed".to_owned(), UserColumn::Confirmed));
    entries.push(("created_at".to_owned(), UserColumn::CreatedAt));
    entries.push(("deleted_at".to_owned(), UserColumn::DeletedAt));
    proof {
        reveal_strlit("id");
        reveal_strlit("name");
        reveal_strlit("normalized_name");
        reveal_strlit("role");
        reveal_strlit("confirmed");
        reveal_strlit("created_at");
        reveal_strlit("deleted_at");
        assert(columns_view(entries@) =~~= spec_user_columns());
    }
    ColumnRegistry { entries }
}

} // verus!
