//! The workload that the daemon launches first.

use crate::document::{lists, Doc, Document, Table};
use crate::error::{Cause, Error, Fault, Field};
use crate::schema::{entry_at, table_at, table_in, text_at, text_in};
use vstd::prelude::*;

verus! {

/// Every value of `table` is a text.
pub open spec fn all_texts(table: Map<Seq<char>, Doc>) -> bool {
    forall|k: Seq<char>| table.contains_key(k) ==> #[trigger] table[k] is Text
}

/// The texts of a table of texts, key by key.
pub open spec fn texts_of(table: Map<Seq<char>, Doc>) -> Map<Seq<char>, Seq<char>> {
    Map::new(|k: Seq<char>| table.contains_key(k), |k: Seq<char>| table[k]->Text_0)
}

/// The table of texts that holds `variables`, key by key.
pub open spec fn table_of_texts(variables: Map<Seq<char>, Seq<char>>) -> Map<Seq<char>, Doc> {
    Map::new(|k: Seq<char>| variables.contains_key(k), |k: Seq<char>| Doc::Text(variables[k]))
}

/// Environment variables: names with one value each, in no particular order.
#[derive(Debug)]
pub struct Env {
    table: Table,
}

impl Env {
    #[verifier::type_invariant]
    spec fn well_formed(&self) -> bool {
        all_texts(self.table@)
    }

    /// The map from each name to its value.
    pub closed spec fn view(&self) -> Map<Seq<char>, Seq<char>> {
        texts_of(self.table@)
    }

    /// No variables.
    pub fn new() -> (env: Env)
        ensures
            env@ == Map::<Seq<char>, Seq<char>>::empty(),
    {
        let env = Env { table: Table::new() };
        assert(env@ =~= Map::<Seq<char>, Seq<char>>::empty());
        env
    }

    /// The variables with `value` under `name`, in place of what they held
    /// there.
    pub fn with(self, name: String, value: String) -> (env: Env)
        ensures
            env@ == self@.insert(name@, value@),
    {
        proof {
            use_type_invariant(&self);
        }
        let env = Env { table: self.table.with(name, Document::Text(value)) };
        assert(env@ =~= self@.insert(name@, value@));
        env
    }

    /// The value of `name`, where there is one.
    pub fn get(&self, name: &str) -> (found: Option<&String>)
        ensures
            match found {
                Some(value) => self@.contains_key(name@) && self@[name@] == value@,
                None => !self@.contains_key(name@),
            },
    {
        proof {
            use_type_invariant(self);
        }
        match self.table.get(name) {
            Some(document) => document.as_text(),
            None => None,
        }
    }

    /// The names of the variables, each once.
    pub fn names(&self) -> (names: Vec<String>)
        ensures
            forall|k: Seq<char>| self@.contains_key(k) <==> lists(names@, k),
            forall|i: int, j: int|
                0 <= i < j < names@.len() ==> (#[trigger] names@[i])@ != (#[trigger] names@[j])@,
    {
        self.table.keys()
    }

    /// The variables that a table of texts holds; `None` where some value of
    /// the table is no text.
    pub fn from_table(table: &Table) -> (env: Option<Env>)
        ensures
            match env {
                Some(env) => all_texts(table@) && env@ == texts_of(table@),
                None => !all_texts(table@),
            },
    {
        let keys = table.keys();
        let mut i: usize = 0;
        while i < keys.len()
            invariant
                i <= keys.len(),
                forall|k: Seq<char>| table@.contains_key(k) <==> lists(keys@, k),
                forall|j: int| 0 <= j < i ==> table@[(#[trigger] keys@[j])@] is Text,
            decreases keys.len() - i,
        {
            assert(lists(keys@, keys@[i as int]@));
            let text = match table.get(keys[i].as_str()) {
                Some(document) => document.as_text(),
                None => None,
            };
            if text.is_none() {
                return None;
            }
            i += 1;
        }
        assert forall|k: Seq<char>| table@.contains_key(k) implies #[trigger] table@[k] is Text by {
            assert(lists(keys@, k));
            let j = choose|j: int| 0 <= j < keys@.len() && (#[trigger] keys@[j])@ == k;
            assert(table@[keys@[j]@] is Text);
        }
        Some(Env { table: table.clone() })
    }

    /// The table of texts that holds the variables.
    pub fn to_table(&self) -> (table: Table)
        ensures
            table@ == table_of_texts(self@),
    {
        proof {
            use_type_invariant(self);
        }
        let table = self.table.clone();
        assert(table@ =~= table_of_texts(self@));
        table
    }
}

/// A workload as a mathematical value.
pub struct ModuleModel<T> {
    pub name: Seq<char>,
    pub type_: Seq<char>,
    pub config: T,
    pub env: Map<Seq<char>, Seq<char>>,
}

/// A workload: its name, the engine that runs it, what that engine is to be
/// told, and its environment. `T` is the engine's own configuration; nothing
/// here looks into it.
#[derive(Debug)]
pub struct ModuleSpec<T> {
    name: String,
    type_: String,
    config: T,
    env: Env,
}

impl<T> View for ModuleSpec<T> {
    type V = ModuleModel<T>;

    closed spec fn view(&self) -> ModuleModel<T> {
        ModuleModel { name: self.name@, type_: self.type_@, config: self.config, env: self.env@ }
    }
}

/// What decoding the engine's configuration came to, as a mathematical
/// value: the configuration, or the words of the refusal.
pub open spec fn answer<T>(config: Result<T, String>) -> Result<T, Seq<char>> {
    match config {
        Ok(config) => Ok(config),
        Err(detail) => Err(detail@),
    }
}

/// The workload that a runtime table describes, given what became of its
/// field `config` when the engine's configuration was decoded from it.
pub open spec fn module_of<T>(table: Map<Seq<char>, Doc>, config: Result<T, Seq<char>>) -> Result<
    ModuleModel<T>,
    Fault,
> {
    match text_at(table, "name"@, Field::Name) {
        Err(fault) => Err(fault),
        Ok(name) => match text_at(table, "type"@, Field::Type) {
            Err(fault) => Err(fault),
            Ok(type_) => match table_at(table, "env"@, Field::Env) {
                Err(fault) => Err(fault),
                Ok(env) => if !all_texts(env) {
                    Err(Fault::WrongShape { field: Field::Env })
                } else {
                    match entry_at(table, "config"@, Field::Config) {
                        Err(fault) => Err(fault),
                        Ok(_) => match config {
                            Err(detail) => Err(Fault::InvalidConfig { detail }),
                            Ok(config) => Ok(
                                ModuleModel { name, type_, config, env: texts_of(env) },
                            ),
                        },
                    }
                },
            },
        },
    }
}

/// The workload that a document describes.
pub open spec fn runtime_of<T>(document: Doc, config: Result<T, Seq<char>>) -> Result<
    ModuleModel<T>,
    Fault,
> {
    match document {
        Doc::Table(table) => module_of(table, config),
        _ => Err(Fault::WrongShape { field: Field::Runtime }),
    }
}

/// The table that describes a workload, with `config` for the engine's
/// configuration.
pub open spec fn module_table<T>(module: ModuleModel<T>, config: Doc) -> Map<Seq<char>, Doc> {
    Map::empty().insert("name"@, Doc::Text(module.name)).insert(
        "type"@,
        Doc::Text(module.type_),
    ).insert("env"@, Doc::Table(table_of_texts(module.env))).insert("config"@, config)
}

impl<T> ModuleSpec<T> {
    /// A workload of the given parts.
    pub fn new(name: String, type_: String, config: T, env: Env) -> (module: ModuleSpec<T>)
        ensures
            module@ == (ModuleModel { name: name@, type_: type_@, config, env: env@ }),
    {
        ModuleSpec { name, type_, config, env }
    }

    /// The name of the workload.
    pub fn name(&self) -> (name: &str)
        ensures
            name@ == self@.name,
    {
        self.name.as_str()
    }

    /// The engine that runs the workload.
    pub fn type_(&self) -> (type_: &str)
        ensures
            type_@ == self@.type_,
    {
        self.type_.as_str()
    }

    /// The engine's configuration.
    pub fn config(&self) -> (config: &T)
        ensures
            *config == self@.config,
    {
        &self.config
    }

    /// The environment of the workload.
    pub fn env(&self) -> (env: &Env)
        ensures
            env@ == self@.env,
    {
        &self.env
    }

    /// Replaces the engine's configuration.
    pub fn set_config(&mut self, config: T)
        ensures
            final(self)@ == (ModuleModel { config, ..old(self)@ }),
    {
        self.config = config;
    }

    /// Replaces the environment.
    pub fn set_env(&mut self, env: Env)
        ensures
            final(self)@ == (ModuleModel { env: env@, ..old(self)@ }),
    {
        self.env = env;
    }

    /// Decodes a workload from its document. `config` is what became of the
    /// document's field `config` when the engine's configuration was decoded
    /// from it.
    pub fn from_document(document: &Document, config: Result<T, String>) -> (decoded: Result<
        ModuleSpec<T>,
        Error,
    >)
        ensures
            match decoded {
                Ok(module) => runtime_of(document@, answer(config)) == Ok::<ModuleModel<T>, Fault>(
                    module@,
                ),
                Err(error) => runtime_of(document@, answer(config)) == Err::<
                    ModuleModel<T>,
                    Fault,
                >(error@),
            },
    {
        let table = match document.as_table() {
            Some(table) => table,
            None => {
                return Err(Error::new(Cause::WrongShape { field: Field::Runtime }));
            },
        };
        let name = text_in(table, "name", Field::Name)?;
        let type_ = text_in(table, "type", Field::Type)?;
        let env = match Env::from_table(table_in(table, "env", Field::Env)?) {
            Some(env) => env,
            None => {
                return Err(Error::new(Cause::WrongShape { field: Field::Env }));
            },
        };
        if table.get("config").is_none() {
            return Err(Error::new(Cause::Missing { field: Field::Config }));
        }
        match config {
            Ok(config) => Ok(ModuleSpec { name: name.clone(), type_: type_.clone(), config, env }),
            Err(detail) => Err(Error::new(Cause::InvalidConfig { detail })),
        }
    }

    /// The document that describes the workload, with `config` for the
    /// engine's configuration.
    pub fn to_document(&self, config: Document) -> (document: Document)
        ensures
            document@ == Doc::Table(module_table(self@, config@)),
    {
        Document::Table(
            Table::new().with("name".to_owned(), Document::Text(self.name.clone())).with(
                "type".to_owned(),
                Document::Text(self.type_.clone()),
            ).with("env".to_owned(), Document::Table(self.env.to_table())).with(
                "config".to_owned(),
                config,
            ),
        )
    }
}

/// The texts of the table of texts that holds some variables are those
/// variables.
pub proof fn law_env_round_trip(variables: Map<Seq<char>, Seq<char>>)
    ensures
        all_texts(table_of_texts(variables)),
        texts_of(table_of_texts(variables)) == variables,
{
    assert(texts_of(table_of_texts(variables)) =~= variables);
}

/// Decoding the document that describes a workload gives that workload back,
/// where the engine's configuration is decoded to what it was.
pub proof fn law_runtime_round_trip<T>(module: ModuleModel<T>, config: Doc)
    ensures
        runtime_of(
            Doc::Table(module_table(module, config)),
            Ok::<T, Seq<char>>(module.config),
        ) == Ok::<ModuleModel<T>, Fault>(module),
{
    reveal_strlit("name");
    reveal_strlit("type");
    reveal_strlit("env");
    reveal_strlit("config");
    assert("name"@[0] != "type"@[0]);
    assert("name"@.len() != "env"@.len());
    assert("name"@.len() != "config"@.len());
    assert("type"@.len() != "env"@.len());
    assert("type"@.len() != "config"@.len());
    assert("env"@.len() != "config"@.len());
    law_env_round_trip(module.env);
}

} // verus!
