//! Where the Frontier database of a node lies, and which kind it is.

use vstd::prelude::*;

use crate::service::config::{Configuration, DatabaseSource};

verus! {

/// Why no Frontier database goes with the database of the chain.
pub const UNSUPPORTED_DATABASE: &'static str = "Supported db sources: `rocksdb` | `paritydb` | `auto`";

/// The directory under which a node keeps everything.
#[derive(Debug)]
pub enum BaseDir<'a> {
    /// The directory that the configuration names.
    Configured(&'a std::path::PathBuf),
    /// The directory that the platform reserves for a project.
    Project { qualifier: &'static str, organization: &'static str, application: &'a String },
}

/// A directory for a Frontier database.
#[derive(Debug)]
pub struct FrontierDir<'a> {
    /// The directory of the node.
    pub base: BaseDir<'a>,
    /// The identifier of the chain that the database belongs to.
    pub chain_id: &'a String,
    /// The directory of the database among those of its chain.
    pub name: &'a str,
}

impl<'a> FrontierDir<'a> {
    /// What is joined onto the base directory, in this order.
    pub open spec fn spec_parts(self) -> Seq<Seq<char>> {
        seq!["chains"@, self.chain_id@, "frontier"@, self.name@]
    }

    /// What is joined onto the base directory, in this order.
    pub fn parts(&self) -> (parts: [&'a str; 4])
        ensures
            parts@.map_values(|part: &'a str| part@) == self.spec_parts(),
    {
        let parts = ["chains", self.chain_id.as_str(), "frontier", self.name];
        assert(parts@.map_values(|part: &'a str| part@) =~= self.spec_parts());
        parts
    }
}

/// A Frontier database to open.
#[derive(Debug)]
pub enum FrontierDatabase<'a> {
    /// A RocksDB database.
    RocksDb { path: FrontierDir<'a>, cache_size: usize },
    /// A ParityDB database.
    ParityDb { path: FrontierDir<'a> },
    /// Whichever of the two is found on disk.
    Auto { rocksdb_path: FrontierDir<'a>, paritydb_path: FrontierDir<'a>, cache_size: usize },
}

/// The base directory of a node: the configured one, or else that of a project
/// which bears the name of the executable.
pub open spec fn base_dir<'a>(config: &'a Configuration) -> BaseDir<'a> {
    match &config.base_path {
        Some(path) => BaseDir::Configured(path),
        None => BaseDir::Project {
            qualifier: "",
            organization: "",
            application: &config.executable_name,
        },
    }
}

/// The directory `name` among those of the Frontier databases of a node.
pub open spec fn frontier_dir<'a>(config: &'a Configuration, name: &'a str) -> FrontierDir<'a> {
    FrontierDir { base: base_dir(config), chain_id: &config.chain_id, name }
}

/// The Frontier database of a node, which is of the kind of the database of
/// the chain. A custom database has none.
pub open spec fn frontier_database<'a>(config: &'a Configuration) -> Option<FrontierDatabase<'a>> {
    match config.database {
        DatabaseSource::RocksDb => Some(
            FrontierDatabase::RocksDb { path: frontier_dir(config, "db"), cache_size: 0 },
        ),
        DatabaseSource::ParityDb => Some(
            FrontierDatabase::ParityDb { path: frontier_dir(config, "paritydb") },
        ),
        DatabaseSource::Auto => Some(
            FrontierDatabase::Auto {
                rocksdb_path: frontier_dir(config, "db"),
                paritydb_path: frontier_dir(config, "paritydb"),
                cache_size: 0,
            },
        ),
        DatabaseSource::Custom => None,
    }
}

/// The directory `path` for a Frontier database of the node:
/// `chains/<chain>/frontier/<path>` below its base directory.
pub fn frontier_database_dir<'a>(config: &'a Configuration, path: &'a str) -> (dir: FrontierDir<'a>)
    ensures
        dir == frontier_dir(config, path),
        dir.base == base_dir(config),
        config.base_path matches Some(base_path) ==> dir.base == BaseDir::Configured(&base_path),
        dir.spec_parts() == seq!["chains"@, config.chain_id@, "frontier"@, path@],
{
    let base = match &config.base_path {
        Some(base_path) => BaseDir::Configured(base_path),
        None => BaseDir::Project {
            qualifier: "",
            organization: "",
            application: &config.executable_name,
        },
    };
    FrontierDir { base, chain_id: &config.chain_id, name: path }
}

/// The Frontier database to open, or why there is none.
pub fn open_frontier_backend<'a>(config: &'a Configuration) -> (r: Result<
    FrontierDatabase<'a>,
    String,
>)
    ensures
        r is Ok <==> config.database != DatabaseSource::Custom,
        r is Ok ==> Some(r->Ok_0) == frontier_database(config),
        r is Err ==> r->Err_0@ == UNSUPPORTED_DATABASE@,
        r is Err ==> r->Err_0@ == "Supported db sources: `rocksdb` | `paritydb` | `auto`"@,
{
    match config.database {
        DatabaseSource::RocksDb => Ok(
            FrontierDatabase::RocksDb { path: frontier_database_dir(config, "db"), cache_size: 0 },
        ),
        DatabaseSource::ParityDb => Ok(
            FrontierDatabase::ParityDb { path: frontier_database_dir(config, "paritydb") },
        ),
        DatabaseSource::Auto => Ok(
            FrontierDatabase::Auto {
                rocksdb_path: frontier_database_dir(config, "db"),
                paritydb_path: frontier_database_dir(config, "paritydb"),
                cache_size: 0,
            },
        ),
        DatabaseSource::Custom => Err(UNSUPPORTED_DATABASE.to_owned()),
    }
}

impl<'a> FrontierDatabase<'a> {
    /// The directories that the database may be kept in.
    pub open spec fn dirs(self) -> Seq<FrontierDir<'a>> {
        match self {
            FrontierDatabase::RocksDb { path, .. } => seq![path],
            FrontierDatabase::ParityDb { path } => seq![path],
            FrontierDatabase::Auto { rocksdb_path, paritydb_path, .. } => seq![
                rocksdb_path,
                paritydb_path,
            ],
        }
    }
}

/// Every directory of the Frontier database of a node lies in
/// `chains/<chain>/frontier` below the base directory of the node.
pub proof fn law_database_lies_below_its_chain(config: &Configuration, i: int)
    requires
        frontier_database(config) is Some,
        0 <= i < frontier_database(config)->0.dirs().len(),
    ensures
        frontier_database(config)->0.dirs()[i].base == base_dir(config),
        frontier_database(config)->0.dirs()[i].spec_parts().take(3) == seq![
            "chains"@,
            config.chain_id@,
            "frontier"@,
        ],
{
    assert(frontier_database(config)->0.dirs()[i].spec_parts().take(3) =~= seq![
        "chains"@,
        config.chain_id@,
        "frontier"@,
    ]);
}

/// For a RocksDB and a ParityDB database of one node, different parts are joined
/// onto the base directory.
pub proof fn law_kinds_have_their_own_directory(config: &Configuration)
    ensures
        frontier_dir(config, "db").spec_parts() != frontier_dir(config, "paritydb").spec_parts(),
        frontier_database(config) matches Some(
            FrontierDatabase::Auto { rocksdb_path, paritydb_path, .. },
        ) ==> rocksdb_path.spec_parts() != paritydb_path.spec_parts(),
{
    reveal_strlit("db");
    reveal_strlit("paritydb");
    assert(frontier_dir(config, "db").spec_parts()[3].len() == 2);
    assert(frontier_dir(config, "paritydb").spec_parts()[3].len() == 8);
}

/// Nodes of different chains join different parts onto their base directories,
/// whatever their databases.
pub proof fn law_chains_have_their_own_directory(
    left: &Configuration,
    right: &Configuration,
    i: int,
    j: int,
)
    requires
        left.chain_id@ != right.chain_id@,
        frontier_database(left) is Some,
        frontier_database(right) is Some,
        0 <= i < frontier_database(left)->0.dirs().len(),
        0 <= j < frontier_database(right)->0.dirs().len(),
    ensures
        frontier_database(left)->0.dirs()[i].spec_parts() != frontier_database(
            right,
        )->0.dirs()[j].spec_parts(),
{
    assert(frontier_database(left)->0.dirs()[i].spec_parts()[1] == left.chain_id@);
    assert(frontier_database(right)->0.dirs()[j].spec_parts()[1] == right.chain_id@);
}

/// A node that is given a base directory keeps its Frontier databases there,
/// whatever its database and the rest of its configuration. Only a node that is
/// given none keeps them where the platform puts the data of its executable.
pub proof fn law_configured_base_is_used<'a>(config: &'a Configuration, name: &'a str)
    ensures
        config.base_path matches Some(path) ==> frontier_dir(config, name).base
            == BaseDir::Configured(&path),
        config.base_path is None ==> (frontier_dir(config, name).base matches BaseDir::Project {
            qualifier,
            organization,
            application,
        } && qualifier@.len() == 0 && organization@.len() == 0 && application@
            == config.executable_name@),
{
    reveal_strlit("");
}

/// All that a configuration says of a directory is the base, the executable and
/// the chain: configurations that agree on these share their directories. An
/// executable has no say where a base is given.
pub proof fn law_directory_depends_on_base_and_chain<'a>(
    left: &'a Configuration,
    right: &'a Configuration,
    name: &'a str,
)
    requires
        left.base_path == right.base_path,
        left.chain_id == right.chain_id,
        left.base_path is None ==> left.executable_name == right.executable_name,
    ensures
        frontier_dir(left, name) == frontier_dir(right, name),
{
}

/// A directory is the one that was asked for, among those of the chain of the
/// node: four parts lie below the base, the chain in second place and the name in
/// the last.
pub proof fn law_directory_is_the_one_asked_for<'a>(config: &'a Configuration, name: &'a str)
    ensures
        frontier_dir(config, name).spec_parts().len() == 4,
        frontier_dir(config, name).spec_parts()[0] == "chains"@,
        frontier_dir(config, name).spec_parts()[1] == config.chain_id@,
        frontier_dir(config, name).spec_parts()[2] == "frontier"@,
        frontier_dir(config, name).spec_parts()[3] == name@,
{
}

/// What is joined onto a base keeps chain and name apart: directories with the
/// same parts belong to the same chain and bear the same name.
pub proof fn law_parts_tell_chain_and_name(left: FrontierDir, right: FrontierDir)
    ensures
        left.spec_parts() == right.spec_parts() <==> left.chain_id@ == right.chain_id@
            && left.name@ == right.name@,
{
    if left.spec_parts() == right.spec_parts() {
        assert(left.spec_parts()[1] == right.spec_parts()[1]);
        assert(left.spec_parts()[3] == right.spec_parts()[3]);
    } else {
        assert(!(left.spec_parts() =~= right.spec_parts()));
    }
}

/// The Frontier database is of the kind of the database of the chain, in the
/// directory of that kind; where either may be found, both directories are tried.
/// RocksDB gets no cache. Only a custom database has no Frontier database.
pub proof fn law_frontier_database_is_of_the_same_kind(config: &Configuration)
    ensures
        frontier_database(config) is None <==> config.database is Custom,
        config.database is RocksDb ==> (frontier_database(config) matches Some(
            FrontierDatabase::RocksDb { path, cache_size },
        ) && path.name@ == "db"@ && cache_size == 0),
        config.database is ParityDb ==> (frontier_database(config) matches Some(
            FrontierDatabase::ParityDb { path },
        ) && path.name@ == "paritydb"@),
        config.database is Auto ==> (frontier_database(config) matches Some(
            FrontierDatabase::Auto { rocksdb_path, paritydb_path, cache_size },
        ) && rocksdb_path.name@ == "db"@ && paritydb_path.name@ == "paritydb"@ && cache_size == 0),
{
}

/// Every directory of the Frontier database of a node lies below the base that
/// the node is given, if it is given one, and below the project of its executable
/// otherwise; and it belongs to the chain of the node.
pub proof fn law_database_lies_below_the_configured_base(config: &Configuration, i: int)
    requires
        frontier_database(config) is Some,
        0 <= i < frontier_database(config)->0.dirs().len(),
    ensures
        config.base_path matches Some(path) ==> frontier_database(config)->0.dirs()[i].base
            == BaseDir::Configured(&path),
        config.base_path is None ==> (frontier_database(config)->0.dirs()[i].base matches BaseDir::Project {
            application,
            ..
        } && application@ == config.executable_name@),
        frontier_database(config)->0.dirs()[i].chain_id@ == config.chain_id@,
{
}

/// A node that finds either kind on disk looks where a node of that kind would
/// keep its database.
pub proof fn law_either_kind_is_found_where_it_is_kept(
    either: &Configuration,
    rocksdb: &Configuration,
    paritydb: &Configuration,
)
    requires
        either.database is Auto,
        rocksdb.database is RocksDb,
        paritydb.database is ParityDb,
        rocksdb.base_path == either.base_path,
        rocksdb.chain_id == either.chain_id,
        rocksdb.executable_name == either.executable_name,
        paritydb.base_path == either.base_path,
        paritydb.chain_id == either.chain_id,
        paritydb.executable_name == either.executable_name,
    ensures
        frontier_database(either)->0.dirs() == frontier_database(rocksdb)->0.dirs()
            + frontier_database(paritydb)->0.dirs(),
{
    assert(frontier_database(either)->0.dirs() =~= frontier_database(rocksdb)->0.dirs()
        + frontier_database(paritydb)->0.dirs());
}

/// The directory that is found for a name lies below the configured base, or
/// below the project of the executable where none is configured, with the chain
/// and the name among its parts.
pub proof fn law_directory_is_found_below_its_base<'a>(
    config: &'a Configuration,
    path: &'a str,
    dir: FrontierDir<'a>,
)
    requires
        call_ensures(frontier_database_dir, (config, path), dir),
    ensures
        config.base_path matches Some(base_path) ==> dir.base == BaseDir::Configured(&base_path),
        config.base_path is None ==> (dir.base matches BaseDir::Project {
            qualifier,
            organization,
            application,
        } && qualifier@ == ""@ && organization@ == ""@ && application@ == config.executable_name@),
        dir.chain_id@ == config.chain_id@,
        dir.name@ == path@,
        dir.spec_parts() == seq!["chains"@, config.chain_id@, "frontier"@, path@],
{
}

/// Opening goes by the kind of the database of the chain; all directories are
/// those that are found for their names, and only a custom database fails.
pub proof fn law_opened_database_lies_where_it_is_found<'a>(
    config: &'a Configuration,
    r: Result<FrontierDatabase<'a>, String>,
    rocksdb: FrontierDir<'a>,
    paritydb: FrontierDir<'a>,
)
    requires
        call_ensures(open_frontier_backend, (config,), r),
        call_ensures(frontier_database_dir, (config, "db"), rocksdb),
        call_ensures(frontier_database_dir, (config, "paritydb"), paritydb),
    ensures
        match config.database {
            DatabaseSource::RocksDb => r matches Ok(FrontierDatabase::RocksDb { path, cache_size })
                && path == rocksdb && cache_size == 0,
            DatabaseSource::ParityDb => r matches Ok(FrontierDatabase::ParityDb { path }) && path
                == paritydb,
            DatabaseSource::Auto => r matches Ok(
                FrontierDatabase::Auto { rocksdb_path, paritydb_path, cache_size },
            ) && rocksdb_path == rocksdb && paritydb_path == paritydb && cache_size == 0,
            DatabaseSource::Custom => r matches Err(reason) && reason@
                == "Supported db sources: `rocksdb` | `paritydb` | `auto`"@,
        },
{
}

} // verus!
