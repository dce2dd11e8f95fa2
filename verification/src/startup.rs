//! Bringing up the local services the client needs: an embedded PostgreSQL
//! server, then the bundled backend. Paths are lists of components, joined
//! by the platform.
use vstd::prelude::*;
use crate::text::text_of;

verus! {

/// The platform the client runs on, as far as the bundled binaries care.
#[derive(Clone, Copy, Debug, PartialEq, Eq, Structural)]
pub enum Platform {
    Windows,
    MacOs,
    Linux,
}

/// The texts of a list of path components.
pub open spec fn texts(v: Seq<String>) -> Seq<Seq<char>> {
    v.map_values(|s: String| s@)
}

fn copy_texts(v: &Vec<String>) -> (w: Vec<String>)
    ensures
        texts(w@) == texts(v@),
{
    let mut w: Vec<String> = Vec::new();
    let mut i: usize = 0;
    while i < v.len()
        invariant
            i <= v@.len(),
            w@.len() == i,
            forall|k: int| 0 <= k < i ==> (#[trigger] w@[k])@ == v@[k]@,
        decreases v@.len() - i,
    {
        w.push(v[i].clone());
        i = i + 1;
    }
    assert(texts(w@) =~= texts(v@));
    w
}

/// `base` followed by the component `last`.
fn joined(base: &Vec<String>, last: &str) -> (p: Vec<String>)
    ensures
        texts(p@) == texts(base@).push(last@),
{
    let mut p = copy_texts(base);
    p.push(text_of(last));
    assert(texts(p@) =~= texts(base@).push(last@));
    p
}

/// The folder of the bundled PostgreSQL for a platform.
pub open spec fn postgres_folder_name(p: Platform) -> Seq<char> {
    match p {
        Platform::Windows => "postgres-windows"@,
        Platform::MacOs => "postgres-macos"@,
        Platform::Linux => "postgres-linux"@,
    }
}

/// The folder of the bundled PostgreSQL for a platform.
pub fn postgres_folder(p: Platform) -> (name: String)
    ensures
        name@ == postgres_folder_name(p),
{
    match p {
        Platform::Windows => text_of("postgres-windows"),
        Platform::MacOs => text_of("postgres-macos"),
        Platform::Linux => text_of("postgres-linux"),
    }
}

/// Where the bundled PostgreSQL lies among the resources.
pub fn postgres_bin_dir(resources: &Vec<String>, p: Platform) -> (dir: Vec<String>)
    ensures
        texts(dir@) == texts(resources@).push(postgres_folder_name(p)),
{
    let folder = postgres_folder(p);
    joined(resources, folder.as_str())
}

/// Where PostgreSQL keeps its data, under the app's local data directory.
pub fn data_dir(local_data: &Vec<String>) -> (dir: Vec<String>)
    ensures
        texts(dir@) == texts(local_data@).push("pgdata"@),
{
    joined(local_data, "pgdata")
}

/// Where PostgreSQL puts its socket, under the app's local data directory.
pub fn socket_dir(local_data: &Vec<String>) -> (dir: Vec<String>)
    ensures
        texts(dir@) == texts(local_data@).push("pgsocket"@),
{
    joined(local_data, "pgsocket")
}

/// A PostgreSQL program under `dir`: in its `bin` folder, with the `.exe`
/// extension on Windows.
pub fn pg_bin(dir: &Vec<String>, name: &str, windows: bool) -> (path: Vec<String>)
    ensures
        texts(path@) == texts(dir@).push("bin"@).push(if windows { name@ + ".exe"@ } else { name@ }),
{
    let bin = joined(dir, "bin");
    if windows {
        let file = text_of(name).concat(".exe");
        joined(&bin, file.as_str())
    } else {
        joined(&bin, name)
    }
}

/// A PostgreSQL program under `dir`, in its `bin` folder, as the startup
/// calls them (without extension).
pub fn tool_path(dir: &Vec<String>, tool: &str) -> (path: Vec<String>)
    ensures
        texts(path@) == texts(dir@).push("bin"@).push(tool@),
{
    let bin = joined(dir, "bin");
    joined(&bin, tool)
}

/// The libraries of the bundled PostgreSQL.
pub fn lib_dir(dir: &Vec<String>) -> (path: Vec<String>)
    ensures
        texts(path@) == texts(dir@).push("lib"@),
{
    joined(dir, "lib")
}

/// The file whose presence shows a data directory is initialised.
pub fn version_marker(data: &Vec<String>) -> (path: Vec<String>)
    ensures
        texts(path@) == texts(data@).push("PG_VERSION"@),
{
    joined(data, "PG_VERSION")
}

/// The bundled backend among the resources.
pub fn server_binary(resources: &Vec<String>, windows: bool) -> (path: Vec<String>)
    ensures
        texts(path@) == texts(resources@).push(if windows { "server.exe"@ } else { "server"@ }),
{
    if windows {
        joined(resources, "server.exe")
    } else {
        joined(resources, "server")
    }
}

/// The arguments `initdb` is run with on the data directory `data`: the
/// cluster's superuser is `fluxbooks`, trusted, with UTF-8 text.
pub open spec fn initdb_args_text(data: Seq<char>) -> Seq<Seq<char>> {
    seq!["-D"@, data, "--username=fluxbooks"@, "--auth=trust"@, "--encoding=UTF8"@]
}

/// The arguments the server is started with: its data and socket
/// directories, the port (after `-p`) and the listening host (after `-h`).
pub open spec fn postgres_args_text(data: Seq<char>, socket: Seq<char>) -> Seq<Seq<char>> {
    seq!["-D"@, data, "-p"@, "5432"@, "-k"@, socket, "-h"@, "127.0.0.1"@]
}

/// The arguments `createdb` is run with: host, port, user (after `-U`) and
/// the database it creates (last).
pub open spec fn createdb_args_text() -> Seq<Seq<char>> {
    seq!["-h"@, "127.0.0.1"@, "-p"@, "5432"@, "-U"@, "fluxbooks"@, "fluxbooks"@]
}

/// A PostgreSQL connection URL for `user` on `host`, `port`, database `db`.
pub open spec fn postgres_url(user: Seq<char>, host: Seq<char>, port: Seq<char>, db: Seq<char>) -> Seq<char> {
    "postgres://"@ + user + "@"@ + host + ":"@ + port + "/"@ + db
}

/// Arguments of `initdb` for the data directory `data`.
pub fn initdb_args(data: &str) -> (args: Vec<String>)
    ensures
        texts(args@) == seq!["-D"@, data@, "--username=fluxbooks"@, "--auth=trust"@, "--encoding=UTF8"@],
        texts(args@) == initdb_args_text(data@),
{
    let args = vec![
        text_of("-D"),
        text_of(data),
        text_of("--username=fluxbooks"),
        text_of("--auth=trust"),
        text_of("--encoding=UTF8"),
    ];
    assert(texts(args@) =~= seq!["-D"@, data@, "--username=fluxbooks"@, "--auth=trust"@, "--encoding=UTF8"@]);
    args
}

/// Arguments of `postgres`: the data directory, port 5432, the socket
/// directory, and listening on the local host only.
pub fn postgres_args(data: &str, socket: &str) -> (args: Vec<String>)
    ensures
        texts(args@) == seq!["-D"@, data@, "-p"@, "5432"@, "-k"@, socket@, "-h"@, "127.0.0.1"@],
        texts(args@) == postgres_args_text(data@, socket@),
{
    let args = vec![
        text_of("-D"),
        text_of(data),
        text_of("-p"),
        text_of("5432"),
        text_of("-k"),
        text_of(socket),
        text_of("-h"),
        text_of("127.0.0.1"),
    ];
    assert(texts(args@) =~= seq!["-D"@, data@, "-p"@, "5432"@, "-k"@, socket@, "-h"@, "127.0.0.1"@]);
    args
}

/// Arguments of `createdb` for the `fluxbooks` database.
pub fn createdb_args() -> (args: Vec<String>)
    ensures
        texts(args@) == seq!["-h"@, "127.0.0.1"@, "-p"@, "5432"@, "-U"@, "fluxbooks"@, "fluxbooks"@],
        texts(args@) == createdb_args_text(),
{
    let args = vec![
        text_of("-h"),
        text_of("127.0.0.1"),
        text_of("-p"),
        text_of("5432"),
        text_of("-U"),
        text_of("fluxbooks"),
        text_of("fluxbooks"),
    ];
    assert(texts(args@) =~= seq!["-h"@, "127.0.0.1"@, "-p"@, "5432"@, "-U"@, "fluxbooks"@, "fluxbooks"@]);
    args
}

/// Arguments of `pg_isready`.
pub fn pg_isready_args() -> (args: Vec<String>)
    ensures
        texts(args@) == seq!["-h"@, "127.0.0.1"@, "-p"@, "5432"@, "-U"@, "fluxbooks"@],
{
    let args = vec![
        text_of("-h"),
        text_of("127.0.0.1"),
        text_of("-p"),
        text_of("5432"),
        text_of("-U"),
        text_of("fluxbooks"),
    ];
    assert(texts(args@) =~= seq!["-h"@, "127.0.0.1"@, "-p"@, "5432"@, "-U"@, "fluxbooks"@]);
    args
}

/// Arguments of `pg_ctl` for a fast stop of the server on `data`.
pub fn pg_ctl_stop_args(data: &str) -> (args: Vec<String>)
    ensures
        texts(args@) == seq!["stop"@, "-D"@, data@, "-m"@, "fast"@],
{
    let args = vec![text_of("stop"), text_of("-D"), text_of(data), text_of("-m"), text_of("fast")];
    assert(texts(args@) =~= seq!["stop"@, "-D"@, data@, "-m"@, "fast"@]);
    args
}

/// The backend's health endpoint.
pub fn health_url() -> (url: String)
    ensures
        url@ == "http://localhost:3001/health"@,
{
    text_of("http://localhost:3001/health")
}

/// Whether the bundled backend can be started: it must be present; when it
/// is not, the error names the path where it was looked for (`path_text`,
/// as the path is shown in messages).
pub fn server_present(exists: bool, path_text: &str) -> (r: Result<(), String>)
    ensures
        exists ==> r is Ok,
        !exists ==> (r matches Err(msg) && msg@ == "server binary not found at "@ + path_text@),
{
    if exists {
        Ok(())
    } else {
        Err(text_of("server binary not found at ").concat(path_text))
    }
}

/// The error when `initdb` could not be started.
pub fn initdb_launch_error(error: &str) -> (msg: String)
    ensures
        msg@ == "initdb failed to launch: "@ + error@,
{
    text_of("initdb failed to launch: ").concat(error)
}

/// The error when `initdb` ended with a failure status.
pub fn initdb_status_error() -> (msg: String)
    ensures
        msg@ == "initdb exited with non-zero status"@,
{
    text_of("initdb exited with non-zero status")
}

/// The error when the PostgreSQL server could not be started.
pub fn postgres_spawn_error(error: &str) -> (msg: String)
    ensures
        msg@ == "Failed to spawn postgres: "@ + error@,
{
    text_of("Failed to spawn postgres: ").concat(error)
}

/// The database the backend is pointed at: the `fluxbooks` database of the
/// embedded server, reached as the `fluxbooks` user (trusted, no password)
/// on 127.0.0.1, port 5432. These are chosen to match what `initdb_args`,
/// `postgres_args` and `createdb_args` set up.
pub open spec fn database_url_text() -> Seq<char> {
    "postgres://fluxbooks@127.0.0.1:5432/fluxbooks"@
}

/// The database the backend is pointed at.
pub fn database_url() -> (url: String)
    ensures
        url@ == database_url_text(),
{
    text_of("postgres://fluxbooks@127.0.0.1:5432/fluxbooks")
}

/// A value from the environment, or the placeholder `REPLACE_ME`.
pub open spec fn or_placeholder(v: Option<Seq<char>>) -> Seq<char> {
    match v {
        Some(s) => s,
        None => "REPLACE_ME"@,
    }
}

/// The plain value of an optional text.
pub open spec fn opt_text(v: Option<String>) -> Option<Seq<char>> {
    match v {
        Some(s) => Some(s@),
        None => None,
    }
}

/// The environment the backend is started with: its port, the database,
/// the sandbox Plaid environment, and the Plaid credentials (placeholders
/// where the client's environment has none).
pub fn backend_env(client_id: Option<String>, secret: Option<String>) -> (env: Vec<(String, String)>)
    ensures
        env@.len() == 5,
        env@[0].0@ == "PORT"@ && env@[0].1@ == "3001"@,
        env@[1].0@ == "DATABASE_URL"@ && env@[1].1@ == database_url_text(),
        env@[2].0@ == "PLAID_ENV"@ && env@[2].1@ == "sandbox"@,
        env@[3].0@ == "PLAID_CLIENT_ID"@ && env@[3].1@ == or_placeholder(opt_text(client_id)),
        env@[4].0@ == "PLAID_SECRET"@ && env@[4].1@ == or_placeholder(opt_text(secret)),
{
    let id = match client_id {
        Some(s) => s,
        None => text_of("REPLACE_ME"),
    };
    let sec = match secret {
        Some(s) => s,
        None => text_of("REPLACE_ME"),
    };
    vec![
        (text_of("PORT"), text_of("3001")),
        (text_of("DATABASE_URL"), database_url()),
        (text_of("PLAID_ENV"), text_of("sandbox")),
        (text_of("PLAID_CLIENT_ID"), id),
        (text_of("PLAID_SECRET"), sec),
    ]
}

/// The backend is pointed at the database the startup prepares: the URL
/// it gets names the host the server listens on and the port it is started
/// on (the `-h` and `-p` arguments of the server), the user that `initdb`
/// makes the cluster's superuser and `createdb` connects as, and the
/// database `createdb` creates; and `createdb` reaches that same server.
pub proof fn lemma_database_url_targets_started_server(data: Seq<char>, socket: Seq<char>)
    ensures
        database_url_text() == postgres_url(
            createdb_args_text()[5],
            postgres_args_text(data, socket)[7],
            postgres_args_text(data, socket)[3],
            createdb_args_text()[6],
        ),
        initdb_args_text(data)[2] == "--username="@ + createdb_args_text()[5],
        createdb_args_text()[1] == postgres_args_text(data, socket)[7],
        createdb_args_text()[3] == postgres_args_text(data, socket)[3],
{
    reveal_strlit("postgres://fluxbooks@127.0.0.1:5432/fluxbooks");
    reveal_strlit("postgres://");
    reveal_strlit("fluxbooks");
    reveal_strlit("@");
    reveal_strlit("127.0.0.1");
    reveal_strlit(":");
    reveal_strlit("5432");
    reveal_strlit("/");
    reveal_strlit("--username=fluxbooks");
    reveal_strlit("--username=");
    assert(database_url_text() =~= postgres_url(
        "fluxbooks"@,
        "127.0.0.1"@,
        "5432"@,
        "fluxbooks"@,
    ));
    assert("--username=fluxbooks"@ =~= "--username="@ + "fluxbooks"@);
}

} // verus!
