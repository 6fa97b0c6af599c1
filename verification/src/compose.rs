//! What a periphery decides when it runs docker compose.

use vstd::prelude::*;
use vstd::string::StrSliceExecFns;
use vstd::string::StringExecFns;
use crate::text;

verus! {

/// The log of a stage of a run.
pub struct Log {
    pub stage: String,
    pub success: bool,
    /// The lines of the log. Those of an error start with the outermost cause.
    pub lines: Vec<String>,
}

/// The contents of a file, or the error with which it could not be read.
pub struct FileContents {
    pub path: String,
    pub contents: String,
}

/// A file that a stack depends on. `D` is what else is known of it.
pub struct StackFile<D> {
    pub path: String,
    pub details: D,
}

/// The contents of a file that a stack depends on.
pub struct StackRemoteFileContents<D> {
    pub path: String,
    pub contents: String,
    pub details: D,
}

/// What came of a run.
pub struct ComposeUpResponse<D> {
    pub logs: Vec<Log>,
    pub missing_files: Vec<String>,
    pub remote_errors: Vec<FileContents>,
    pub file_contents: Vec<StackRemoteFileContents<D>>,
}

/// Where the images of a stack come from.
pub struct RegistryConfig {
    pub registry_provider: String,
    pub registry_account: String,
}

/// Whether a stack needs a login to its image registry.
pub open spec fn needs_login(config: RegistryConfig) -> bool {
    config.registry_provider@.len() > 0 && config.registry_account@.len() > 0
}

/// Whether a stack needs a login to its image registry.
pub fn needs_registry_login(config: &RegistryConfig) -> (r: bool)
    ensures
        r == needs_login(*config),
{
    !text::is_empty(config.registry_provider.as_str()) && !text::is_empty(config.registry_account.as_str())
}

/// The lines with which a login to an image registry failed.
pub open spec fn is_login_log(config: RegistryConfig, error: Seq<char>, log: Log) -> bool {
    &&& log.stage@ == "Login to Registry"@
    &&& !log.success
    &&& text::texts(log.lines@) == seq![
        "Failed to login to image registry"@,
        "Domain: '"@ + config.registry_provider@ + "' | Account: '"@ + config.registry_account@ + "'"@,
        error,
    ]
}

/// Logs that the login to the image registry failed, where it was needed and
/// failed with `error`.
pub fn maybe_login_registry(config: &RegistryConfig, error: Option<String>, logs: &mut Vec<Log>)
    ensures
        if needs_login(*config) && error is Some {
            &&& final(logs)@.len() == old(logs)@.len() + 1
            &&& final(logs)@.drop_last() == old(logs)@
            &&& is_login_log(*config, error->0@, final(logs)@.last())
        } else {
            final(logs)@ == old(logs)@
        },
{
    if !needs_registry_login(config) {
        return;
    }
    match error {
        Some(error) => {
            let mut domain: String = text::concat3(
                "Domain: '",
                config.registry_provider.as_str(),
                "' | Account: '",
            );
            domain.append(config.registry_account.as_str());
            domain.append("'");
            let ghost domain_text = domain@;
            let ghost error_text = error@;
            let mut lines: Vec<String> = Vec::new();
            lines.push("Failed to login to image registry".to_owned());
            lines.push(domain);
            lines.push(error);
            assert(text::texts(lines@) =~= seq!["Failed to login to image registry"@, domain_text, error_text]);
            let ghost before = logs@;
            logs.push(Log { stage: "Login to Registry".to_owned(), success: false, lines });
            assert(logs@.drop_last() =~= before);
        },
        None => {},
    }
}

/// The argument for an env file.
pub open spec fn env_file_arg(file: Seq<char>) -> Seq<char> {
    " --env-file "@ + file
}

/// The arguments for the first `n` of `files`, without the file `own`.
pub open spec fn additional_args(files: Seq<Seq<char>>, own: Option<Seq<char>>, n: int) -> Seq<char>
    decreases n,
{
    if n <= 0 {
        Seq::empty()
    } else if own == Some(files[n - 1]) {
        additional_args(files, own, n - 1)
    } else {
        additional_args(files, own, n - 1) + env_file_arg(files[n - 1])
    }
}

/// The arguments for all env files.
pub open spec fn all_env_args(own: Option<Seq<char>>, files: Seq<Seq<char>>) -> Seq<char> {
    let additional = additional_args(files, own, files.len() as int);
    match own {
        Some(file) => additional + env_file_arg(file),
        None => additional,
    }
}

/// The arguments of docker compose for its env files. The one at
/// `env_file_path` comes last, and only there, so that it has the highest
/// priority.
pub fn env_file_args(env_file_path: Option<&str>, additional_env_files: &Vec<String>) -> (r: String)
    ensures
        r@ == all_env_args(text::optional_text(env_file_path), text::texts(additional_env_files@)),
{
    let ghost own = text::optional_text(env_file_path);
    let ghost files = text::texts(additional_env_files@);
    let mut res: String = String::new();
    let mut i: usize = 0;
    while i < additional_env_files.len()
        invariant
            i <= additional_env_files@.len(),
            own == text::optional_text(env_file_path),
            files == text::texts(additional_env_files@),
            res@ == additional_args(files, own, i as int),
        decreases additional_env_files@.len() - i,
    {
        let file: &str = additional_env_files[i].as_str();
        assert(files[i as int] == file@);
        // Filter the own env file out of the additional ones if its also in
        // there.
        let is_own: bool = match env_file_path {
            Some(path) => text::same(file, path),
            None => false,
        };
        if !is_own {
            let ghost before = res@;
            res.append(" --env-file ");
            res.append(file);
            assert(res@ =~= before + env_file_arg(file@));
        }
        i = i + 1;
    }
    // Add this last, so it is applied on top
    match env_file_path {
        Some(file) => {
            let ghost before = res@;
            res.append(" --env-file ");
            res.append(file);
            assert(res@ =~= before + env_file_arg(file@));
        },
        None => {},
    }
    res
}

/// The own env file is the last argument, and its place among the additional
/// ones does not matter: wherever and however often it stands among them, the
/// arguments are those for the other files, followed by its own.
pub proof fn law_own_env_file_comes_last(own: Seq<char>, files: Seq<Seq<char>>)
    ensures
        all_env_args(Some(own), files) == all_env_args(None, files.filter(|file: Seq<char>| file != own))
            + env_file_arg(own),
{
    lemma_own_file_is_left_out(own, files, files.len() as int);
    assert(files.take(files.len() as int) =~= files);
}

/// Of the first `n` files, the arguments are those for the files other than
/// `own`.
proof fn lemma_own_file_is_left_out(own: Seq<char>, files: Seq<Seq<char>>, n: int)
    requires
        0 <= n <= files.len(),
    ensures
        additional_args(files, Some(own), n) == all_env_args(
            None,
            files.take(n).filter(|file: Seq<char>| file != own),
        ),
    decreases n,
{
    reveal(Seq::filter);
    let other = |file: Seq<char>| file != own;
    if n > 0 {
        lemma_own_file_is_left_out(own, files, n - 1);
        let first = files.take(n);
        let before = files.take(n - 1).filter(other);
        assert(first.drop_last() =~= files.take(n - 1));
        if first.last() != own {
            let after = first.filter(other);
            assert(after =~= before.push(first.last()));
            lemma_additional_args_prefix(before, after, None, before.len() as int);
        }
    }
}

proof fn lemma_additional_args_prefix(a: Seq<Seq<char>>, b: Seq<Seq<char>>, own: Option<Seq<char>>, n: int)
    requires
        n <= a.len(),
        n <= b.len(),
        forall|i: int| 0 <= i < n ==> a[i] == b[i],
    ensures
        additional_args(a, own, n) == additional_args(b, own, n),
    decreases n,
{
    if n > 0 {
        lemma_additional_args_prefix(a, b, own, n - 1);
    }
}

/// The command that brings services of a project down, or all of them.
pub open spec fn down_command(docker_compose: Seq<char>, project: Seq<char>, services: Seq<Seq<char>>) -> Seq<char> {
    docker_compose + " -p "@ + project + " down"@ + (if services.len() == 0 {
        Seq::empty()
    } else {
        " "@ + text::joined(services, " "@)
    })
}

/// The command that brings services of a project down, or all of them.
pub fn compose_down_command(docker_compose: &str, project: &str, services: &Vec<String>) -> (r: String)
    ensures
        r@ == down_command(docker_compose@, project@, text::texts(services@)),
{
    let mut r: String = text::concat3(docker_compose, " -p ", project);
    r.append(" down");
    if services.len() > 0 {
        let args: String = text::concat(" ", text::join(services, " ").as_str());
        r.append(args.as_str());
    } else {
        assert(r@ =~= r@ + Seq::<char>::empty());
    }
    r
}

/// Failed to bring down existing container(s) with docker compose down.
#[derive(Debug, Clone, Copy, PartialEq, Eq, Structural)]
pub struct ComposeDownError;

/// Takes note of the log of the command that brought services down.
pub fn compose_down<D>(log: Log, res: &mut ComposeUpResponse<D>) -> (r: Result<(), ComposeDownError>)
    ensures
        *final(res) == (ComposeUpResponse { logs: final(res).logs, ..*old(res) }),
        final(res).logs@ == old(res).logs@.push(log),
        r is Ok <==> log.success,
{
    let success: bool = log.success;
    res.logs.push(log);
    if !success {
        return Err(ComposeDownError);
    }
    Ok(())
}

/// What is known of a stack whose files come from a repo.
pub struct StackSource {
    pub name: String,
    pub files_on_host: bool,
    pub repo: String,
    pub clone_path: String,
}

/// What is known of a repo.
pub struct RepoSource {
    pub name: String,
    pub path: String,
}

/// Why a stack cannot be cloned.
#[derive(Debug, Clone, Copy, PartialEq, Eq, Structural)]
pub enum CloneError {
    /// Wrong method called for files on host stack.
    FilesOnHost,
    /// Repo is not configured.
    NoRepo,
}

/// Below which directory a repo is cloned.
#[derive(Debug, Clone, Copy, PartialEq, Eq, Structural)]
pub enum CloneBase {
    RepoDir,
    StackDir,
}

/// Where a repo is cloned: below the base, the path compatible name, then the
/// path.
pub struct ClonePlan {
    pub base: CloneBase,
    pub name: String,
    pub path: String,
}

/// Decides where the repo of a stack is pulled or cloned. Only for git repo
/// based Stacks.
pub fn pull_or_clone_stack(stack: &StackSource, repo: Option<&RepoSource>) -> (r: Result<ClonePlan, CloneError>)
    ensures
        if stack.files_on_host {
            r == Err::<ClonePlan, CloneError>(CloneError::FilesOnHost)
        } else {
            match repo {
                Some(repo) => r matches Ok(plan) && plan.base == CloneBase::RepoDir && plan.name@ == repo.name@
                    && plan.path@ == repo.path@,
                None => if stack.repo@.len() == 0 {
                    r == Err::<ClonePlan, CloneError>(CloneError::NoRepo)
                } else {
                    r matches Ok(plan) && plan.base == CloneBase::StackDir && plan.name@ == stack.name@ && plan.path@
                        == stack.clone_path@
                },
            }
        },
{
    if stack.files_on_host {
        return Err(CloneError::FilesOnHost);
    }
    match repo {
        Some(repo) => Ok(
            ClonePlan {
                base: CloneBase::RepoDir,
                name: repo.name.as_str().to_owned(),
                path: repo.path.as_str().to_owned(),
            },
        ),
        None => {
            if text::is_empty(stack.repo.as_str()) {
                return Err(CloneError::NoRepo);
            }
            Ok(
                ClonePlan {
                    base: CloneBase::StackDir,
                    name: stack.name.as_str().to_owned(),
                    path: stack.clone_path.as_str().to_owned(),
                },
            )
        },
    }
}

/// The paths of those of the first `n` files that do not exist.
pub open spec fn missing<D>(files: Seq<StackFile<D>>, exists: Seq<bool>, n: int) -> Seq<Seq<char>>
    decreases n,
{
    if n <= 0 {
        Seq::empty()
    } else if exists[n - 1] {
        missing(files, exists, n - 1)
    } else {
        missing(files, exists, n - 1).push(files[n - 1].path@)
    }
}

/// Whether `log` says that the files `paths` are missing.
pub open spec fn is_missing_log(paths: Seq<Seq<char>>, log: Log) -> bool {
    &&& log.stage@ == "Validate Files"@
    &&& !log.success
    &&& text::texts(log.lines@) == seq![
        "A file doesn't exist after writing stack."@,
        "Ensure the run_directory and all file paths are correct."@,
        "Missing files: "@ + text::joined(paths, ", "@),
    ]
}

/// First validates that no file is missing: takes note of those that are, and
/// tells whether the files are to be read.
pub fn validate_missing_files<D>(files: &Vec<StackFile<D>>, exists: &Vec<bool>, res: &mut ComposeUpResponse<D>) -> (r:
    bool)
    requires
        files@.len() == exists@.len(),
    ensures
        text::texts(final(res).missing_files@) == text::texts(old(res).missing_files@) + missing(
            files@,
            exists@,
            files@.len() as int,
        ),
        final(res).remote_errors == old(res).remote_errors,
        final(res).file_contents == old(res).file_contents,
        r <==> final(res).missing_files@.len() == 0,
        r ==> final(res).logs == old(res).logs,
        !r ==> {
            &&& final(res).logs@.len() == old(res).logs@.len() + 1
            &&& final(res).logs@.drop_last() == old(res).logs@
            &&& is_missing_log(text::texts(final(res).missing_files@), final(res).logs@.last())
        },
{
    let ghost noted = text::texts(res.missing_files@);
    let ghost start = *res;
    let mut i: usize = 0;
    while i < files.len()
        invariant
            i <= files@.len(),
            files@.len() == exists@.len(),
            text::texts(res.missing_files@) == noted + missing(files@, exists@, i as int),
            res.logs == start.logs,
            res.remote_errors == start.remote_errors,
            res.file_contents == start.file_contents,
        decreases files@.len() - i,
    {
        if !exists[i] {
            let ghost before = text::texts(res.missing_files@);
            res.missing_files.push(files[i].path.as_str().to_owned());
            assert(text::texts(res.missing_files@) =~= before.push(files@[i as int].path@));
            assert(before.push(files@[i as int].path@) =~= noted + missing(files@, exists@, i as int).push(
                files@[i as int].path@,
            ));
        }
        i = i + 1;
    }
    if res.missing_files.len() == 0 {
        return true;
    }
    let paths: String = text::join(&res.missing_files, ", ");
    let line: String = text::concat("Missing files: ", paths.as_str());
    let ghost line_text = line@;
    let mut lines: Vec<String> = Vec::new();
    lines.push("A file doesn't exist after writing stack.".to_owned());
    lines.push("Ensure the run_directory and all file paths are correct.".to_owned());
    lines.push(line);
    assert(text::texts(lines@) =~= seq![
        "A file doesn't exist after writing stack."@,
        "Ensure the run_directory and all file paths are correct."@,
        line_text,
    ]);
    res.logs.push(Log { stage: "Validate Files".to_owned(), success: false, lines });
    assert(res.logs@.drop_last() =~= start.logs@);
    false
}

/// Takes note of the error with which a file could not be read.
fn note_unreadable<D>(path: String, error: String, res: &mut ComposeUpResponse<D>)
    ensures
        final(res).missing_files == old(res).missing_files,
        final(res).file_contents == old(res).file_contents,
        is_noted_error(path@, error@, *old(res), *final(res)),
{
    let ghost before = *res;
    let mut lines: Vec<String> = Vec::new();
    lines.push(error.as_str().to_owned());
    assert(text::texts(lines@) =~= seq![error@]);
    res.logs.push(Log { stage: "Read Compose File".to_owned(), success: false, lines });
    assert(res.logs@.drop_last() =~= before.logs@);
    // This should only happen for repo stacks, ie remote error
    res.remote_errors.push(FileContents { path, contents: error });
    assert(res.remote_errors@.drop_last() =~= before.remote_errors@);
}

/// Whether the logs and the remote errors of `after` are those of `before`, with
/// one more of each: that the file at `path` could not be read.
pub open spec fn is_noted_error<D>(
    path: Seq<char>,
    error: Seq<char>,
    before: ComposeUpResponse<D>,
    after: ComposeUpResponse<D>,
) -> bool {
    &&& after.logs@.len() == before.logs@.len() + 1
    &&& after.logs@.drop_last() == before.logs@
    &&& after.logs@.last().stage@ == "Read Compose File"@
    &&& !after.logs@.last().success
    &&& text::texts(after.logs@.last().lines@) == seq![error]
    &&& after.remote_errors@.len() == before.remote_errors@.len() + 1
    &&& after.remote_errors@.drop_last() == before.remote_errors@
    &&& after.remote_errors@.last().path@ == path
    &&& after.remote_errors@.last().contents@ == error
}

/// How many of the files were read before one could not be.
pub open spec fn readable(contents: Seq<Result<String, String>>) -> nat
    decreases contents.len(),
{
    if contents.len() == 0 || contents[0] is Err {
        0
    } else {
        1 + readable(contents.skip(1))
    }
}

/// Whether `entry` is what is kept of `file`, in which `contents` was read.
pub open spec fn is_contents_of<D>(
    file: StackFile<D>,
    contents: Seq<char>,
    entry: StackRemoteFileContents<D>,
) -> bool {
    &&& entry.path == file.path
    &&& entry.contents@ == contents
    &&& entry.details == file.details
}

/// Whether the file contents of `after` are those of `before`, followed by those
/// of the first `n` files, in order.
pub open spec fn are_added<D>(
    files: Seq<StackFile<D>>,
    contents: Seq<Result<String, String>>,
    n: int,
    before: Seq<StackRemoteFileContents<D>>,
    after: Seq<StackRemoteFileContents<D>>,
) -> bool {
    &&& after.len() == before.len() + n
    &&& after.take(before.len() as int) == before
    &&& forall|j: int| before.len() <= j < after.len() ==> is_contents_of(
        files[j - before.len()],
        contents[j - before.len()]->Ok_0@,
        #[trigger] after[j],
    )
}

/// Whether `after` is what becomes of `before` when the files that are there were
/// read: those before the first that could not be read are added, in order, and
/// the error of that one is noted.
pub open spec fn is_noted<D>(
    files: Seq<StackFile<D>>,
    contents: Seq<Result<String, String>>,
    before: ComposeUpResponse<D>,
    after: ComposeUpResponse<D>,
) -> bool {
    let n = readable(contents);
    &&& are_added(files, contents, n as int, before.file_contents@, after.file_contents@)
    &&& if n < contents.len() {
        is_noted_error(files[n as int].path@, contents[n as int]->Err_0@, before, after)
    } else {
        after.logs == before.logs && after.remote_errors == before.remote_errors
    }
}

/// All files up to number `n` were read, and number `n` was not.
proof fn lemma_readable(contents: Seq<Result<String, String>>, n: nat)
    requires
        n <= contents.len(),
        forall|i: int| 0 <= i < n ==> (#[trigger] contents[i]) is Ok,
        n < contents.len() ==> contents[n as int] is Err,
    ensures
        readable(contents) == n,
    decreases n,
{
    if n > 0 {
        let rest = contents.skip(1);
        assert forall|i: int| 0 <= i < n - 1 implies (#[trigger] rest[i]) is Ok by {
            assert(rest[i] == contents[i + 1]);
        }
        lemma_readable(rest, (n - 1) as nat);
    }
}

/// Takes note of the files that were read. Tells whether all of them were.
fn note_files<D>(files: Vec<StackFile<D>>, contents: &Vec<Result<String, String>>, res: &mut ComposeUpResponse<D>) -> (r:
    bool)
    requires
        contents@.len() <= files@.len(),
    ensures
        final(res).missing_files == old(res).missing_files,
        is_noted(files@, contents@, *old(res), *final(res)),
        r <==> readable(contents@) == files@.len(),
{
    let ghost before = *res;
    let mut i: usize = 0;
    assert(before.file_contents@.take(before.file_contents@.len() as int) =~= before.file_contents@);
    for file in iter: files
        invariant
            before == *old(res),
            i == iter.index(),
            i <= contents@.len(),
            contents@.len() <= files@.len(),
            iter.seq() == files@,
            forall|k: int| 0 <= k < i ==> (#[trigger] contents@[k]) is Ok,
            res.missing_files == before.missing_files,
            res.logs == before.logs,
            res.remote_errors == before.remote_errors,
            are_added(files@, contents@, i as int, before.file_contents@, res.file_contents@),
    {
        if i == contents.len() {
            proof {
                lemma_readable(contents@, i as nat);
            }
            return false;
        }
        match &contents[i] {
            Ok(text) => {
                let ghost kept = res.file_contents@;
                res.file_contents.push(
                    StackRemoteFileContents { path: file.path, contents: text.as_str().to_owned(), details: file.details },
                );
                assert(res.file_contents@.take(before.file_contents@.len() as int) =~= kept.take(
                    before.file_contents@.len() as int,
                ));
            },
            Err(error) => {
                proof {
                    lemma_readable(contents@, i as nat);
                }
                note_unreadable(file.path, error.as_str().to_owned(), res);
                return false;
            },
        }
        i = i + 1;
    }
    proof {
        lemma_readable(contents@, contents@.len());
    }
    true
}

/// Validates the files of a stack: that none is missing, and then that each can
/// be read. `exists` tells which are there, and `contents` what reading them
/// gave, up to the first that could not be read; where a file is missing, none
/// is taken note of. Tells whether all of them were read.
pub fn validate_files<D>(
    files: Vec<StackFile<D>>,
    exists: &Vec<bool>,
    contents: &Vec<Result<String, String>>,
    res: &mut ComposeUpResponse<D>,
) -> (r: bool)
    requires
        files@.len() == exists@.len(),
        contents@.len() <= files@.len(),
    ensures
        text::texts(final(res).missing_files@) == text::texts(old(res).missing_files@) + missing(
            files@,
            exists@,
            files@.len() as int,
        ),
        if final(res).missing_files@.len() > 0 {
            &&& !r
            &&& final(res).remote_errors == old(res).remote_errors
            &&& final(res).file_contents == old(res).file_contents
            &&& final(res).logs@.len() == old(res).logs@.len() + 1
            &&& final(res).logs@.drop_last() == old(res).logs@
            &&& is_missing_log(text::texts(final(res).missing_files@), final(res).logs@.last())
        } else {
            &&& r <==> readable(contents@) == files@.len()
            &&& is_noted(files@, contents@, *old(res), *final(res))
        },
{
    if !validate_missing_files(&files, exists, res) {
        return false;
    }
    note_files(files, contents, res)
}

/// The files of a stack that are read are those before the first that cannot be:
/// each of them was read, the next one, where there is one, could not be, and
/// what comes after it makes no difference.
pub proof fn law_first_unreadable_file_ends_reading(
    contents: Seq<Result<String, String>>,
    more: Seq<Result<String, String>>,
)
    ensures
        readable(contents) <= contents.len(),
        forall|i: int| 0 <= i < readable(contents) ==> (#[trigger] contents[i]) is Ok,
        readable(contents) < contents.len() ==> contents[readable(contents) as int] is Err,
        readable(contents) < contents.len() ==> readable(contents + more) == readable(contents),
    decreases contents.len(),
{
    if contents.len() > 0 && contents[0] is Ok {
        let rest = contents.skip(1);
        law_first_unreadable_file_ends_reading(rest, more);
        assert forall|i: int| 0 <= i < readable(contents) implies (#[trigger] contents[i]) is Ok by {
            if i > 0 {
                assert(rest[i - 1] == contents[i]);
            }
        }
        assert((contents + more).skip(1) =~= rest + more);
    }
}

/// The command that brings services down names each of them: it is the command
/// for the whole project, followed by a space and a service for each service, in
/// order. So one that names a service is never the one for the whole project.
pub proof fn law_down_command_names_each_service(
    docker_compose: Seq<char>,
    project: Seq<char>,
    services: Seq<Seq<char>>,
    service: Seq<char>,
)
    ensures
        down_command(docker_compose, project, services.push(service)) == down_command(
            docker_compose,
            project,
            services,
        ) + " "@ + service,
        down_command(docker_compose, project, services.push(service)).len() > down_command(
            docker_compose,
            project,
            services,
        ).len(),
        down_command(docker_compose, project, seq![service]) == down_command(docker_compose, project, Seq::empty())
            + " "@ + service,
        down_command(docker_compose, project, seq![service]) != down_command(docker_compose, project, Seq::empty()),
        down_command(docker_compose, project, Seq::empty()) == docker_compose + " -p "@ + project + " down"@,
{
    reveal_strlit(" ");
    let whole = down_command(docker_compose, project, Seq::empty());
    assert(whole =~= docker_compose + " -p "@ + project + " down"@);
    let more = services.push(service);
    assert(more.drop_last() =~= services);
    if services.len() == 0 {
        assert(services =~= Seq::empty());
        assert(more =~= seq![service]);
    }
    assert(text::joined(seq![service], " "@) == service);
    assert(down_command(docker_compose, project, seq![service]) =~= whole + " "@ + service);
    assert(down_command(docker_compose, project, more) =~= down_command(docker_compose, project, services) + " "@
        + service);
}

/// A stack needs a login to its image registry where it names a provider and an
/// account there, and only then.
pub proof fn law_login_needs_provider_and_account(config: RegistryConfig)
    ensures
        config.registry_provider@.len() == 0 ==> !needs_login(config),
        config.registry_account@.len() == 0 ==> !needs_login(config),
        config.registry_provider@.len() > 0 && config.registry_account@.len() > 0 ==> needs_login(config),
{
}

/// The log of a login that failed names the provider and the account, and ends
/// in the error.
pub proof fn law_login_log_names_the_account(config: RegistryConfig, error: Seq<char>, log: Log)
    requires
        is_login_log(config, error, log),
    ensures
        !log.success,
        log.stage@ == "Login to Registry"@,
        log.lines@.len() == 3,
        log.lines@[0]@ == "Failed to login to image registry"@,
        log.lines@[1]@ == "Domain: '"@ + config.registry_provider@ + "' | Account: '"@ + config.registry_account@
            + "'"@,
        log.lines@[2]@ == error,
{
    let lines = text::texts(log.lines@);
    assert(lines.len() == 3);
    assert(lines[0] == log.lines@[0]@ && lines[1] == log.lines@[1]@ && lines[2] == log.lines@[2]@);
}

/// Each additional env file but the own one has an argument, in order, and the
/// own one has the last: one more file adds its argument behind those of the
/// others, and before that of the own file.
pub proof fn law_each_env_file_has_an_argument(own: Seq<char>, files: Seq<Seq<char>>, file: Seq<char>)
    ensures
        all_env_args(None, Seq::empty()) == Seq::<char>::empty(),
        all_env_args(Some(own), Seq::empty()) == " --env-file "@ + own,
        all_env_args(None, files.push(file)) == all_env_args(None, files) + " --env-file "@ + file,
        all_env_args(Some(own), files) == all_env_args(None, files.filter(|f: Seq<char>| f != own)) + " --env-file "@
            + own,
{
    let more = files.push(file);
    lemma_additional_args_prefix(files, more, None, files.len() as int);
    assert(all_env_args(None, more) =~= all_env_args(None, files) + " --env-file "@ + file);
    assert(all_env_args(Some(own), Seq::empty()) =~= " --env-file "@ + own);
    law_own_env_file_comes_last(own, files);
    let others = files.filter(|f: Seq<char>| f != own);
    assert(all_env_args(None, others) + env_file_arg(own) =~= all_env_args(None, others) + " --env-file "@ + own);
}

/// The missing files are those that do not exist, in order: one more file is
/// missing exactly where it does not exist.
pub proof fn law_missing_files_are_those_that_do_not_exist<D>(
    files: Seq<StackFile<D>>,
    exists: Seq<bool>,
    n: int,
)
    requires
        0 <= n < files.len(),
        files.len() == exists.len(),
    ensures
        missing(files, exists, 0).len() == 0,
        !exists[n] ==> missing(files, exists, n + 1) == missing(files, exists, n).push(files[n].path@),
        exists[n] ==> missing(files, exists, n + 1) == missing(files, exists, n),
{
}

/// The log of missing files names them all.
pub proof fn law_missing_log_names_the_files(paths: Seq<Seq<char>>, log: Log)
    requires
        is_missing_log(paths, log),
    ensures
        !log.success,
        log.stage@ == "Validate Files"@,
        log.lines@.len() == 3,
        log.lines@[2]@ == "Missing files: "@ + text::joined(paths, ", "@),
{
    let lines = text::texts(log.lines@);
    assert(lines.len() == 3);
    assert(lines[2] == log.lines@[2]@);
}

/// What is noted of the files that were read: of each before the first that
/// could not be, its path, its details and what was read; and of that one, with
/// number `failed`, its path and the error, once as a remote error and once in a
/// log. `failed` is the number of reads where none failed.
pub proof fn law_files_are_noted_as_they_were_read<D>(
    files: Seq<StackFile<D>>,
    contents: Seq<Result<String, String>>,
    failed: int,
    before: ComposeUpResponse<D>,
    after: ComposeUpResponse<D>,
)
    requires
        is_noted(files, contents, before, after),
        0 <= failed <= contents.len() <= files.len(),
        forall|i: int| 0 <= i < failed ==> (#[trigger] contents[i]) is Ok,
        failed < contents.len() ==> contents[failed] is Err,
    ensures
        after.file_contents@.len() == before.file_contents@.len() + failed,
        forall|i: int| 0 <= i < before.file_contents@.len() ==> #[trigger] after.file_contents@[i]
            == before.file_contents@[i],
        forall|i: int|
            before.file_contents@.len() <= i < after.file_contents@.len() ==> {
                let read = i - before.file_contents@.len();
                let entry = #[trigger] after.file_contents@[i];
                entry.path == files[read].path && entry.details == files[read].details && entry.contents@
                    == contents[read]->Ok_0@
            },
        failed < contents.len() ==> {
            &&& after.remote_errors@.len() == before.remote_errors@.len() + 1
            &&& after.remote_errors@.last().path@ == files[failed].path@
            &&& after.remote_errors@.last().contents@ == contents[failed]->Err_0@
            &&& after.remote_errors@.drop_last() == before.remote_errors@
            &&& after.logs@.len() == before.logs@.len() + 1
            &&& after.logs@.drop_last() == before.logs@
            &&& !after.logs@.last().success
            &&& after.logs@.last().stage@ == "Read Compose File"@
            &&& after.logs@.last().lines@.len() == 1
            &&& after.logs@.last().lines@[0]@ == contents[failed]->Err_0@
        },
        failed == contents.len() ==> after.logs == before.logs && after.remote_errors == before.remote_errors,
{
    lemma_readable(contents, failed as nat);
    assert forall|i: int| 0 <= i < before.file_contents@.len() implies #[trigger] after.file_contents@[i]
        == before.file_contents@[i] by {
        assert(after.file_contents@.take(before.file_contents@.len() as int)[i] == after.file_contents@[i]);
    }
    if failed < contents.len() {
        let lines = text::texts(after.logs@.last().lines@);
        assert(lines.len() == 1);
        assert(lines[0] == after.logs@.last().lines@[0]@);
    }
}

} // verus!
