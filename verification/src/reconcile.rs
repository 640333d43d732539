//! The ownership reconciliation that runs on the server after every DDL
//! command: for each object that the command created or altered, whether
//! its ownership is to be handed to the role configured for its schema.
//!
//! The set of object categories is closed: tables, sequences, views,
//! materialized views, functions and types. Objects of any other category
//! are left alone.
//!
//! On the server the reconciliation is the function that
//! [`crate::sql_templates::TRIGGER_FUNCTION_SQL`] installs. This module
//! states the same decisions over plain values: each arm of the function's
//! two switches is a category here, and its `ELSE` arms are
//! [`Decision::NotReconciled`].

use vstd::prelude::*;
use vstd::string::StringExecFns;
use crate::sql_templates::SqlTemplates;
use crate::sql_templates::quoted;
use crate::text::same_text;
use crate::text::texts;

verus! {

/// The categories of object whose ownership is reconciled.
#[derive(Debug, Clone, Copy, PartialEq, Eq, Structural)]
pub enum ObjectCategory {
    Table,
    Sequence,
    View,
    MaterializedView,
    Function,
    Type,
}

/// The catalogs in which the owner of an object is recorded.
#[derive(Debug, Clone, Copy, PartialEq, Eq, Structural)]
pub enum OwnerCatalog {
    /// Relations: tables, sequences, views and materialized views.
    Relations,
    /// Functions.
    Functions,
    /// Types.
    Types,
}

/// The category named by the tag under which the server reports an object.
pub open spec fn category_named(tag: Seq<char>) -> Option<ObjectCategory> {
    if tag == "table"@ {
        Some(ObjectCategory::Table)
    } else if tag == "sequence"@ {
        Some(ObjectCategory::Sequence)
    } else if tag == "view"@ {
        Some(ObjectCategory::View)
    } else if tag == "materialized view"@ {
        Some(ObjectCategory::MaterializedView)
    } else if tag == "function"@ {
        Some(ObjectCategory::Function)
    } else if tag == "type"@ {
        Some(ObjectCategory::Type)
    } else {
        None
    }
}

impl ObjectCategory {
    /// The category named by a tag, or `None` for an object that is not
    /// reconciled.
    pub fn from_tag(tag: &str) -> (category: Option<ObjectCategory>)
        ensures
            category == category_named(tag@),
    {
        if same_text(tag, "table") {
            Some(ObjectCategory::Table)
        } else if same_text(tag, "sequence") {
            Some(ObjectCategory::Sequence)
        } else if same_text(tag, "view") {
            Some(ObjectCategory::View)
        } else if same_text(tag, "materialized view") {
            Some(ObjectCategory::MaterializedView)
        } else if same_text(tag, "function") {
            Some(ObjectCategory::Function)
        } else if same_text(tag, "type") {
            Some(ObjectCategory::Type)
        } else {
            None
        }
    }

    /// The catalog that records the owner of an object of this category.
    pub open spec fn catalog(self) -> OwnerCatalog {
        match self {
            ObjectCategory::Function => OwnerCatalog::Functions,
            ObjectCategory::Type => OwnerCatalog::Types,
            _ => OwnerCatalog::Relations,
        }
    }

    /// The catalog that records the owner of an object of this category.
    pub fn owner_catalog(&self) -> (catalog: OwnerCatalog)
        ensures
            catalog == self.catalog(),
    {
        match self {
            ObjectCategory::Function => OwnerCatalog::Functions,
            ObjectCategory::Type => OwnerCatalog::Types,
            _ => OwnerCatalog::Relations,
        }
    }

    /// The words that name the category in a statement.
    pub open spec fn keyword_text(self) -> Seq<char> {
        match self {
            ObjectCategory::Table => "TABLE"@,
            ObjectCategory::Sequence => "SEQUENCE"@,
            ObjectCategory::View => "VIEW"@,
            ObjectCategory::MaterializedView => "MATERIALIZED VIEW"@,
            ObjectCategory::Function => "FUNCTION"@,
            ObjectCategory::Type => "TYPE"@,
        }
    }

    /// The words that name the category in a statement.
    pub fn keyword(&self) -> (text: &'static str)
        ensures
            text@ == self.keyword_text(),
    {
        match self {
            ObjectCategory::Table => "TABLE",
            ObjectCategory::Sequence => "SEQUENCE",
            ObjectCategory::View => "VIEW",
            ObjectCategory::MaterializedView => "MATERIALIZED VIEW",
            ObjectCategory::Function => "FUNCTION",
            ObjectCategory::Type => "TYPE",
        }
    }
}

/// What is known of one object that a DDL command touched, once the
/// catalogs were consulted.
#[derive(Debug, Clone, PartialEq, Eq)]
pub struct TouchedObject {
    /// The tag under which the server reports the object.
    pub object_type: String,
    /// The object as it is named in a statement.
    pub object_identity: String,
    /// The role configured for the schema of the object, if there is one.
    pub target_role: Option<String>,
    /// The identifier of that role, unless the role is gone.
    pub target_role_id: Option<u32>,
    /// The identifier of the role that owns the object, where the catalog
    /// of its category records one.
    pub owner_id: Option<u32>,
}

/// The mathematical content of a [`TouchedObject`].
pub struct ObjectView {
    pub object_type: Seq<char>,
    pub object_identity: Seq<char>,
    pub target_role: Option<Seq<char>>,
    pub target_role_id: Option<u32>,
    pub owner_id: Option<u32>,
}

impl View for TouchedObject {
    type V = ObjectView;

    open spec fn view(&self) -> ObjectView {
        ObjectView {
            object_type: self.object_type@,
            object_identity: self.object_identity@,
            target_role: crate::text::optional_text(self.target_role),
            target_role_id: self.target_role_id,
            owner_id: self.owner_id,
        }
    }
}

/// What is done about one object.
#[derive(Debug, Clone, Copy, PartialEq, Eq, Structural)]
pub enum Decision {
    /// The schema of the object has no configured role.
    NoMapping,
    /// The configured role is gone: the mapping is stale, which is no error.
    StaleRole,
    /// The object is of a category that is not reconciled, or its owner is
    /// not on record.
    NotReconciled,
    /// The object is owned by the configured role already.
    AlreadyOwned,
    /// The ownership of the object is handed to the configured role.
    Transfer { category: ObjectCategory },
}

/// The decision about one object: nothing without a mapping, nothing for a
/// role that is gone, nothing for a category outside the closed set, nothing
/// where the owner is the configured role, and a transfer otherwise.
pub open spec fn decision(object: ObjectView) -> Decision {
    if object.target_role is None {
        Decision::NoMapping
    } else if object.target_role_id is None {
        Decision::StaleRole
    } else if category_named(object.object_type) is None || object.owner_id is None {
        Decision::NotReconciled
    } else if object.owner_id == object.target_role_id {
        Decision::AlreadyOwned
    } else {
        Decision::Transfer { category: category_named(object.object_type)->0 }
    }
}

/// Decides what is done about one object.
pub fn decide(object: &TouchedObject) -> (r: Decision)
    ensures
        r == decision(object@),
{
    if object.target_role.is_none() {
        return Decision::NoMapping;
    }
    let role_id = match object.target_role_id {
        Some(id) => id,
        None => {
            return Decision::StaleRole;
        },
    };
    let category = match ObjectCategory::from_tag(object.object_type.as_str()) {
        Some(category) => category,
        None => {
            return Decision::NotReconciled;
        },
    };
    match object.owner_id {
        None => Decision::NotReconciled,
        Some(owner) => if owner == role_id {
            Decision::AlreadyOwned
        } else {
            Decision::Transfer { category }
        },
    }
}

/// The statement that hands an object to a role. The role is written as a
/// quoted identifier.
pub open spec fn transfer_text(category: ObjectCategory, identity: Seq<char>, role: Seq<char>)
    -> Seq<char> {
    "ALTER "@ + category.keyword_text() + " "@ + identity + " OWNER TO "@ + quoted(role)
}

/// The statement that hands an object to a role.
pub fn transfer_statement(category: ObjectCategory, identity: &str, role: &str) -> (sql: String)
    ensures
        sql@ == transfer_text(category, identity@, role@),
{
    let quoting = SqlTemplates::new(String::new(), String::new(), String::new());
    let mut out = String::from_str("ALTER ");
    out.append(category.keyword());
    out.append(" ");
    out.append(identity);
    out.append(" OWNER TO ");
    out.append(quoting.quote_identifier(role).as_str());
    out
}

/// The statement issued for one object, if one is issued.
pub open spec fn statement_for(object: ObjectView) -> Option<Seq<char>> {
    match decision(object) {
        Decision::Transfer { category } => Some(
            transfer_text(category, object.object_identity, object.target_role->0),
        ),
        _ => None,
    }
}

/// The statements issued for the objects of one DDL command, in the order
/// of the objects.
pub open spec fn statements_for(objects: Seq<ObjectView>) -> Seq<Seq<char>>
    decreases objects.len(),
{
    if objects.len() == 0 {
        Seq::empty()
    } else {
        match statement_for(objects.last()) {
            Some(sql) => statements_for(objects.drop_last()).push(sql),
            None => statements_for(objects.drop_last()),
        }
    }
}

/// The contents of a sequence of objects.
pub open spec fn object_views(objects: Seq<TouchedObject>) -> Seq<ObjectView> {
    Seq::new(objects.len(), |i: int| objects[i]@)
}

/// The statements that reconcile the objects of one DDL command.
pub fn reconcile(objects: &Vec<TouchedObject>) -> (statements: Vec<String>)
    ensures
        texts(statements@) == statements_for(object_views(objects@)),
{
    let mut statements: Vec<String> = Vec::new();
    let mut i: usize = 0;
    assert(texts(statements@) =~= Seq::<Seq<char>>::empty());
    while i < objects.len()
        invariant
            i <= objects.len(),
            texts(statements@) == statements_for(object_views(objects@).take(i as int)),
        decreases objects.len() - i,
    {
        assert(object_views(objects@).take(i + 1).drop_last() =~= object_views(objects@).take(
            i as int,
        ));
        assert(object_views(objects@).take(i + 1).last() == objects@[i as int]@);
        let object = &objects[i];
        let ghost before = texts(statements@);
        match decide(object) {
            Decision::Transfer { category } => {
                match &object.target_role {
                    Some(role) => {
                        let sql = transfer_statement(
                            category,
                            object.object_identity.as_str(),
                            role.as_str(),
                        );
                        statements.push(sql);
                        assert(texts(statements@) =~= before.push(sql@));
                    },
                    None => {},
                }
            },
            _ => {},
        }
        i = i + 1;
    }
    assert(object_views(objects@).take(i as int) =~= object_views(objects@));
    statements
}

/// An object after its ownership was handed to the configured role.
pub open spec fn transferred(object: ObjectView) -> ObjectView {
    ObjectView { owner_id: object.target_role_id, ..object }
}

/// Reconciling is idempotent for each object: an object owned by the
/// configured role is left alone, and an object that was handed over is
/// owned by the configured role, so that a second pass issues nothing.
pub proof fn lemma_transfer_settles(object: ObjectView)
    ensures
        object.owner_id == object.target_role_id ==> statement_for(object) is None,
        decision(object) is Transfer ==> decision(transferred(object)) == Decision::AlreadyOwned,
        decision(object) is Transfer ==> statement_for(transferred(object)) is None,
{
}

/// An object is handed over only where its schema has a configured role
/// that exists, its category is one of the closed set, and its owner is
/// another role.
pub proof fn lemma_transfer_conditions(object: ObjectView)
    requires
        statement_for(object) is Some,
    ensures
        object.target_role is Some,
        object.target_role_id is Some,
        category_named(object.object_type) is Some,
        object.owner_id is Some,
        object.owner_id != object.target_role_id,
{
}

} // verus!
