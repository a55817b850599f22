//! Typed command options and configuration defaults. The argument parser and
//! the configuration file reader live outside the library; they hand over
//! these plain structs, and the merge of configuration defaults into list
//! options happens here, before any query is built.

use vstd::prelude::*;

verus! {

/// A parsed command line: one command per invocation.
pub struct Cli {
    pub command: Commands,
}

/// The four supported commands.
pub enum Commands {
    List(ListArgs),
    Add(AddArgs),
    Remove(RemoveArgs),
    Edit(EditArgs),
}

/// Options of the `list` command.
pub struct ListArgs {
    /// Display only id, name, and acquired date.
    pub short: bool,
    /// Display all item details.
    pub long: bool,
    /// Output in JSON format.
    pub json: bool,
    /// Return all results without paging.
    pub all: bool,
    /// Number of items per page.
    pub limit: Option<u32>,
    /// Number of items to skip.
    pub offset: Option<u32>,
    /// Sort direction, `asc` or `desc`.
    pub order_by: Option<String>,
    /// Fields to sort by, in order of priority.
    pub sort_by: Option<Vec<String>>,
    /// Regular expression to filter results by.
    pub filter: Option<String>,
    /// Fields to filter on.
    pub fields: Option<Vec<String>>,
}

/// Options of the `add` command.
pub struct AddArgs {
    /// Name of the item; absent when the item comes interactively or as JSON.
    pub name: Option<String>,
    /// Interactive mode: prompt for every field.
    pub interactive: bool,
    /// JSON text with the item's fields.
    pub input: Option<String>,
    /// Output in JSON format.
    pub json: bool,
}

/// Options of the `remove` command.
pub struct RemoveArgs {
    /// Identifier of the item to remove.
    pub id: String,
    /// Output in JSON format.
    pub json: bool,
}

/// Options of the `edit` command.
pub struct EditArgs {
    /// Identifier of the item to edit.
    pub id: String,
    /// JSON text with the fields to update.
    pub input: String,
    /// Output in JSON format.
    pub json: bool,
}

/// Defaults consulted when the corresponding command option is absent.
pub struct Config {
    pub default_currency: Option<String>,
    pub database_path: Option<String>,
    pub default_page_limit: Option<u32>,
    pub default_sort_by: Option<Vec<String>>,
    pub default_order_by: Option<String>,
}

impl Config {
    /// A configuration with no defaults set.
    pub fn default() -> (c: Config)
        ensures
            c.default_currency is None,
            c.database_path is None,
            c.default_page_limit is None,
            c.default_sort_by is None,
            c.default_order_by is None,
    {
        Config {
            default_currency: None,
            database_path: None,
            default_page_limit: None,
            default_sort_by: None,
            default_order_by: None,
        }
    }

    /// Settles on a configuration: the one read from a configuration file when
    /// one was found and parsed, otherwise the built-in defaults. A load
    /// failure is recovered here, never fatal.
    pub fn load(found: Option<Config>) -> (c: Config)
        ensures
            found is Some ==> c == found.unwrap(),
            found is None ==> {
                &&& c.default_currency is None
                &&& c.database_path is None
                &&& c.default_page_limit is None
                &&& c.default_sort_by is None
                &&& c.default_order_by is None
            },
    {
        match found {
            Some(c) => c,
            None => Config::default(),
        }
    }
}

/// Merges configuration defaults into explicit list options: a default applies
/// only where the option is absent, and the default page limit is ignored when
/// `all` is set. The query builder itself never consults the configuration.
pub fn apply_config_defaults(args: ListArgs, config: Config) -> (out: ListArgs)
    ensures
        out.short == args.short,
        out.long == args.long,
        out.json == args.json,
        out.all == args.all,
        out.offset == args.offset,
        out.filter == args.filter,
        out.fields == args.fields,
        out.limit == (if args.limit is None && !args.all {
            config.default_page_limit
        } else {
            args.limit
        }),
        out.sort_by == (if args.sort_by is None {
            config.default_sort_by
        } else {
            args.sort_by
        }),
        out.order_by == (if args.order_by is None {
            config.default_order_by
        } else {
            args.order_by
        }),
{
    let mut out = args;
    if out.limit.is_none() && !out.all {
        out.limit = config.default_page_limit;
    }
    if out.sort_by.is_none() {
        out.sort_by = config.default_sort_by;
    }
    if out.order_by.is_none() {
        out.order_by = config.default_order_by;
    }
    out
}

} // verus!
