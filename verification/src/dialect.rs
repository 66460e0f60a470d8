//! Resolution of dialect names to the closed set of supported SQL grammars.

use vstd::prelude::*;
use vstd::string::*;

verus! {

/// The SQL grammar variants understood by the catalog builder.
#[derive(Clone, Copy, Debug, PartialEq, Eq, Structural)]
pub enum Dialect {
    MySql,
    Postgres,
    Sqlite,
    Generic,
}

/// ASCII case folding of one character, as a code point.
pub open spec fn fold_code(c: char) -> int {
    if 65 <= c as int && c as int <= 90 {
        c as int + 32
    } else {
        c as int
    }
}

/// ASCII case folding of a character sequence, as code points.
pub open spec fn folded(s: Seq<char>) -> Seq<int> {
    s.map_values(|c: char| fold_code(c))
}

/// True when the two sequences agree up to ASCII case.
pub open spec fn same_folded(a: Seq<char>, b: Seq<char>) -> bool {
    folded(a) == folded(b)
}

/// The dialect a name resolves to: each dialect is reachable through a
/// fixed set of case-insensitive synonyms, and every other name is refused.
pub open spec fn dialect_for(name: Seq<char>) -> Option<Dialect> {
    if same_folded(name, "mysql"@) || same_folded(name, "mariadb"@) {
        Some(Dialect::MySql)
    } else if same_folded(name, "sqlite"@) || same_folded(name, "sqlite3"@) {
        Some(Dialect::Sqlite)
    } else if same_folded(name, "postgres"@) || same_folded(name, "postgresql"@) || same_folded(
        name,
        "psql"@,
    ) {
        Some(Dialect::Postgres)
    } else if same_folded(name, "generic"@) {
        Some(Dialect::Generic)
    } else {
        None
    }
}

/// Every name accepted by `dialect_for`, lower case, in the order they
/// are listed in error messages.
pub open spec fn valid_dialect_names() -> Seq<Seq<char>> {
    seq![
        "mysql"@,
        "mariadb"@,
        "sqlite"@,
        "sqlite3"@,
        "postgres"@,
        "postgresql"@,
        "psql"@,
        "generic"@,
    ]
}

/// Every listed dialect name resolves to a dialect.
pub proof fn lemma_valid_names_resolve()
    ensures
        forall|i: int|
            0 <= i < valid_dialect_names().len() ==> #[trigger] dialect_for(
                valid_dialect_names()[i],
            ) is Some,
{
    reveal_strlit("mysql");
    reveal_strlit("mariadb");
    reveal_strlit("sqlite");
    reveal_strlit("sqlite3");
    reveal_strlit("postgres");
    reveal_strlit("postgresql");
    reveal_strlit("psql");
    reveal_strlit("generic");
    assert(folded("mysql"@).len() == 5);
    assert(folded("mariadb"@).len() == 7);
    assert(folded("sqlite"@).len() == 6);
    assert(folded("sqlite3"@).len() == 7);
    assert(folded("postgres"@).len() == 8);
    assert(folded("postgresql"@).len() == 10);
    assert(folded("psql"@).len() == 4);
    assert(folded("generic"@).len() == 7);
    // The names of equal length differ in their first character code.
    assert(folded("sqlite3"@)[0] == fold_code("sqlite3"@[0]));
    assert(folded("mariadb"@)[0] == fold_code("mariadb"@[0]));
    assert(folded("generic"@)[0] == fold_code("generic"@[0]));
    assert forall|i: int| 0 <= i < valid_dialect_names().len() implies #[trigger] dialect_for(
        valid_dialect_names()[i],
    ) is Some by {
        if i == 0 {
            assert(dialect_for("mysql"@) == Some(Dialect::MySql));
        } else if i == 1 {
            assert(dialect_for("mariadb"@) == Some(Dialect::MySql));
        } else if i == 2 {
            assert(dialect_for("sqlite"@) == Some(Dialect::Sqlite));
        } else if i == 3 {
            assert(dialect_for("sqlite3"@) == Some(Dialect::Sqlite));
        } else if i == 4 {
            assert(dialect_for("postgres"@) == Some(Dialect::Postgres));
        } else if i == 5 {
            assert(dialect_for("postgresql"@) == Some(Dialect::Postgres));
        } else if i == 6 {
            assert(dialect_for("psql"@) == Some(Dialect::Postgres));
        } else {
            assert(dialect_for("generic"@) == Some(Dialect::Generic));
        }
    }
}

/// ASCII case folding of one character.
fn fold_char(c: char) -> (r: u32)
    ensures
        r as int == fold_code(c),
{
    let u: u32 = c as u32;
    if 65 <= u && u <= 90 {
        u + 32
    } else {
        u
    }
}

/// True exactly when the two strings agree up to ASCII case.
fn eq_fold(a: &str, b: &str) -> (r: bool)
    ensures
        r == same_folded(a@, b@),
{
    let alen: usize = a.unicode_len();
    let blen: usize = b.unicode_len();
    if alen != blen {
        proof {
            assert(folded(a@).len() != folded(b@).len());
        }
        return false;
    }
    let mut i: usize = 0;
    while i < alen
        invariant
            i <= alen,
            alen == a@.len(),
            alen == b@.len(),
            forall|j: int| 0 <= j < i ==> fold_code(a@[j]) == fold_code(b@[j]),
        decreases alen - i,
    {
        if fold_char(a.get_char(i)) != fold_char(b.get_char(i)) {
            proof {
                assert(folded(a@)[i as int] != folded(b@)[i as int]);
            }
            return false;
        }
        i = i + 1;
    }
    proof {
        assert(folded(a@) =~= folded(b@));
    }
    true
}

/// Maps a dialect name, case-insensitively, to the grammar it selects;
/// `None` for every name outside the supported synonyms.
pub fn resolve_dialect(name: &str) -> (r: Option<Dialect>)
    ensures
        r == dialect_for(name@),
{
    if eq_fold(name, "mysql") || eq_fold(name, "mariadb") {
        Some(Dialect::MySql)
    } else if eq_fold(name, "sqlite") || eq_fold(name, "sqlite3") {
        Some(Dialect::Sqlite)
    } else if eq_fold(name, "postgres") || eq_fold(name, "postgresql") || eq_fold(name, "psql") {
        Some(Dialect::Postgres)
    } else if eq_fold(name, "generic") {
        Some(Dialect::Generic)
    } else {
        None
    }
}

/// The dialect names accepted by `resolve_dialect`, as strings.
pub fn dialect_options() -> (v: Vec<String>)
    ensures
        v.deep_view() == valid_dialect_names(),
{
    let mut v: Vec<String> = Vec::new();
    v.push("mysql".to_owned());
    v.push("mariadb".to_owned());
    v.push("sqlite".to_owned());
    v.push("sqlite3".to_owned());
    v.push("postgres".to_owned());
    v.push("postgresql".to_owned());
    v.push("psql".to_owned());
    v.push("generic".to_owned());
    proof {
        assert(v.deep_view() =~~= valid_dialect_names());
    }
    v
}

} // verus!
