//! The settings that the environment leaves in the operator's shell profile, or
//! in the registry on Windows.

use vstd::prelude::*;
use vstd::string::*;
use vstd::utf8::{decode_utf8, valid_utf8};
use crate::dns::{change_view, Change, ChangeView, EditError};
use crate::exec::Channel;
use crate::host::{
    env_value, failure_text, handle_output, parse_env_string, OutputError, ProcessOutput,
};
use crate::outside::{regex_replace, regex_replaced};
use crate::paths::TargetOs;
use crate::text::{chars_of, contains, ends_with, find, finishes_with, has_part, lines, lines_of, lists, optional_text, push_all, replace, replace_char, replaced, same_text, string_of, texts, trim_text, trimmed, with_char_replaced, words, words_of};

verus! {

/// Whether a line of the profile was written for the environment.
pub open spec fn is_ours(line: Seq<char>) -> bool {
    ||| has_part(line, "# krunch"@)
    ||| has_part(line, "DOCKER_TLS_VERIFY"@)
    ||| has_part(line, "DOCKER_HOST"@)
    ||| has_part(line, "DOCKER_CERT_PATH"@)
    ||| has_part(line, "MINIKUBE_ACTIVE_DOCKERD"@)
    ||| has_part(line, "/.krunch"@)
}

/// The lines that were not written for the environment, in their order.
pub open spec fn foreign(lines: Seq<Seq<char>>) -> Seq<Seq<char>>
    decreases lines.len(),
{
    if lines.len() == 0 {
        Seq::empty()
    } else if is_ours(lines.last()) {
        foreign(lines.drop_last())
    } else {
        foreign(lines.drop_last()).push(lines.last())
    }
}

/// The lines as they are written to a file: each with a line feed behind it.
pub open spec fn written(lines: Seq<Seq<char>>) -> Seq<char>
    decreases lines.len(),
{
    if lines.len() == 0 {
        Seq::empty()
    } else {
        written(lines.drop_last()) + lines.last().push('\n')
    }
}

/// Some line was written for the environment.
pub open spec fn has_entries(lines: Seq<Seq<char>>) -> bool {
    exists|i: int| 0 <= i < lines.len() && is_ours(#[trigger] lines[i])
}

/// The profile without the lines of the environment; `None` where it has none.
pub open spec fn without_entries(profile: Seq<char>) -> Option<Seq<char>> {
    if has_entries(lines_of(profile)) {
        Some(written(foreign(lines_of(profile))))
    } else {
        None
    }
}

/// Whether a line of the profile was written for the environment.
pub fn is_environment_entry(line: &Vec<char>) -> (r: bool)
    ensures
        r == is_ours(line@),
{
    find(line, &chars_of("# krunch")).is_some() || find(
        line,
        &chars_of("DOCKER_TLS_VERIFY"),
    ).is_some() || find(line, &chars_of("DOCKER_HOST")).is_some() || find(
        line,
        &chars_of("DOCKER_CERT_PATH"),
    ).is_some() || find(line, &chars_of("MINIKUBE_ACTIVE_DOCKERD")).is_some() || find(
        line,
        &chars_of("/.krunch"),
    ).is_some()
}

/// The profile without the lines of the environment; `None` where there is
/// nothing to do.
pub fn remove_environment_entries(profile: &str) -> (r: Option<String>)
    ensures
        optional_text(r) == without_entries(profile@),
{
    let all = lines(&chars_of(profile));
    let mut out: Vec<char> = Vec::new();
    let mut removed = false;
    let mut i: usize = 0;
    while i < all.len()
        invariant
            i <= all.len(),
            out@ == written(foreign(lists(all@).take(i as int))),
            removed == has_entries(lists(all@).take(i as int)),
        decreases all.len() - i,
    {
        let ghost before = lists(all@).take(i as int);
        let ghost upto = lists(all@).take(i + 1);
        assert(upto.drop_last() == before);
        proof {
            lemma_entries_extend(before, all@[i as int]@);
        }
        if is_environment_entry(&all[i]) {
            removed = true;
        } else {
            let ghost kept = foreign(before);
            push_all(&mut out, &all[i]);
            out.push('\n');
            assert(foreign(upto).drop_last() == kept);
        }
        i = i + 1;
    }
    assert(lists(all@).take(i as int) == lists(all@));
    if removed {
        Some(string_of(&out))
    } else {
        None
    }
}

/// A line of the environment is among `before` and `last` exactly when it is
/// among `before` or is `last`.
proof fn lemma_entries_extend(before: Seq<Seq<char>>, last: Seq<char>)
    ensures
        has_entries(before.push(last)) <==> has_entries(before) || is_ours(last),
{
    let all = before.push(last);
    if has_entries(before) {
        let i = choose|i: int| 0 <= i < before.len() && is_ours(#[trigger] before[i]);
        assert(is_ours(all[i]));
    }
    if is_ours(last) {
        assert(is_ours(all[before.len() as int]));
    }
    if has_entries(all) {
        let i = choose|i: int| 0 <= i < all.len() && is_ours(#[trigger] all[i]);
        if i < before.len() {
            assert(is_ours(before[i]));
        }
    }
}

/// The line of a shell profile that puts `folder` in front of the search path,
/// unless it is on the path already.
pub open spec fn path_export(folder: Seq<char>) -> Seq<char> {
    "if [[ \":$PATH:\" != *\":"@ + folder + ":\"* ]]; then export PATH=\""@ + folder
        + ":$PATH\"; fi"@
}

/// The profile with the folder of the tools on the search path; `None` where the
/// profile names the folder already.
pub open spec fn with_bin_folder(profile: Seq<char>, folder: Seq<char>) -> Option<Seq<char>> {
    let data = trimmed(profile);
    if has_part(data, folder) {
        None
    } else {
        Some(data + "\n\n# krunch\n"@ + path_export(folder) + "\n\n"@)
    }
}

/// The folder in the spelling of Windows: with backslashes.
pub open spec fn windows_spelling(folder: Seq<char>) -> Seq<char> {
    with_char_replaced(folder, '/', seq!['\\'])
}

/// The search path of Windows with the folder of the tools at its end; `None`
/// where the path names the folder already.
pub open spec fn with_bin_folder_windows(path: Seq<char>, folder: Seq<char>) -> Option<
    Seq<char>,
> {
    let folder = windows_spelling(folder);
    if has_part(path, folder) {
        None
    } else if finishes_with(path, ";"@) {
        Some(path + folder + ";"@)
    } else {
        Some(path + ";"@ + folder + ";"@)
    }
}

/// The search path of Windows without the folder of the tools.
pub open spec fn without_bin_folder_windows(path: Seq<char>, folder: Seq<char>) -> Seq<char> {
    replaced(path, ";"@ + windows_spelling(folder), Seq::empty())
}

fn windows_folder(folder: &str) -> (r: String)
    ensures
        r@ == windows_spelling(folder@),
{
    let by = vec!['\\'];
    assert(by@ =~= seq!['\\']);
    string_of(&replace_char(&chars_of(folder), '/', &by))
}

/// The shell profile with the folder of the tools on the search path; `None`
/// where there is nothing to do.
pub fn add_bin_folder_to_path_unix(profile: &str, bin_folder: &str) -> (r: Option<String>)
    ensures
        optional_text(r) == with_bin_folder(profile@, bin_folder@),
{
    let data = trim_text(profile);
    if contains(data.as_str(), bin_folder) {
        None
    } else {
        let line = String::from_str("if [[ \":$PATH:\" != *\":").concat(bin_folder).concat(
            ":\"* ]]; then export PATH=\"",
        ).concat(bin_folder).concat(":$PATH\"; fi");
        Some(data.concat("\n\n# krunch\n").concat(line.as_str()).concat("\n\n"))
    }
}

/// The search path of Windows with the folder of the tools at its end; `None`
/// where there is nothing to do.
pub fn add_bin_folder_to_path_windows(current_path: &str, bin_folder: &str) -> (r: Option<String>)
    ensures
        optional_text(r) == with_bin_folder_windows(current_path@, bin_folder@),
{
    let folder = windows_folder(bin_folder);
    if contains(current_path, folder.as_str()) {
        None
    } else if ends_with(current_path, ";") {
        Some(String::from_str(current_path).concat(folder.as_str()).concat(";"))
    } else {
        Some(String::from_str(current_path).concat(";").concat(folder.as_str()).concat(";"))
    }
}

/// What the search path has to become so that it holds the folder of the tools:
/// `text` is the shell profile, or the search path itself on Windows. `None`
/// where there is nothing to do.
pub fn add_bin_folder_to_path(os: TargetOs, text: &str, bin_folder: &str) -> (r: Option<String>)
    ensures
        optional_text(r) == if os is Windows {
            with_bin_folder_windows(text@, bin_folder@)
        } else {
            with_bin_folder(text@, bin_folder@)
        },
{
    match os {
        TargetOs::Windows => add_bin_folder_to_path_windows(text, bin_folder),
        _ => add_bin_folder_to_path_unix(text, bin_folder),
    }
}

/// The search path of Windows without the folder of the tools.
pub fn remove_bin_folder_from_path_windows(current_path: &str, bin_folder: &str) -> (r: String)
    ensures
        r@ == without_bin_folder_windows(current_path@, bin_folder@),
{
    let needle = String::from_str(";").concat(windows_folder(bin_folder).as_str());
    let nothing: Vec<char> = Vec::new();
    string_of(&replace(&chars_of(current_path), &chars_of(needle.as_str()), &nothing))
}

/// The four settings of the docker client.
#[derive(Clone, Debug, PartialEq, Eq)]
pub struct DockerEnv {
    pub tls_verify: String,
    pub host: String,
    pub cert_path: String,
    pub active_dockerd: String,
}

/// The settings that the shell commands `text` export.
pub open spec fn is_docker_env(e: DockerEnv, text: Seq<char>) -> bool {
    &&& e.tls_verify@ == env_value(lines_of(text), "export DOCKER_TLS_VERIFY"@)
    &&& e.host@ == env_value(lines_of(text), "export DOCKER_HOST"@)
    &&& e.cert_path@ == env_value(lines_of(text), "export DOCKER_CERT_PATH"@)
    &&& e.active_dockerd@ == env_value(lines_of(text), "export MINIKUBE_ACTIVE_DOCKERD"@)
}

/// Reads the settings of the docker client from the shell commands that export
/// them.
pub fn get_docker_env(docker_env_bash: &str) -> (e: DockerEnv)
    ensures
        is_docker_env(e, docker_env_bash@),
{
    let (tls_verify, host, cert_path, active_dockerd) = parse_env_string(docker_env_bash);
    DockerEnv { tls_verify, host, cert_path, active_dockerd }
}

/// The line of a shell profile that exports one setting.
pub open spec fn export_line(name: Seq<char>, value: Seq<char>) -> Seq<char> {
    "export "@ + name + "=\""@ + value + "\""@
}

/// The lines that export the four settings, each with a line feed in front.
pub open spec fn docker_exports(e: DockerEnv) -> Seq<char> {
    "\n"@ + export_line("DOCKER_TLS_VERIFY"@, e.tls_verify@) + "\n"@ + export_line(
        "DOCKER_HOST"@,
        e.host@,
    ) + "\n"@ + export_line("DOCKER_CERT_PATH"@, e.cert_path@) + "\n"@ + export_line(
        "MINIKUBE_ACTIVE_DOCKERD"@,
        e.active_dockerd@,
    )
}

/// What has to be done to the shell profile so that the docker client finds the
/// daemon of the cluster: nothing where the profile names the host, an update of
/// the first line that exports the host where there is one, else the addition of
/// the four settings.
pub open spec fn docker_change(profile: Seq<char>, e: DockerEnv) -> Result<ChangeView, EditError> {
    let data = trimmed(profile);
    if has_part(data, e.host@) {
        Ok(ChangeView::Unchanged)
    } else if has_part(data, "export DOCKER_HOST"@) {
        match regex_replaced(
            "(?m)^export DOCKER_HOST.*\n"@,
            data,
            export_line("DOCKER_HOST"@, e.host@) + "\n"@,
        ) {
            Some(t) => Ok(ChangeView::Updated(t)),
            None => Err(EditError::BadPattern),
        }
    } else {
        Ok(ChangeView::Added(data + docker_exports(e) + "\n\n"@))
    }
}

fn export(name: &str, value: &str) -> (r: String)
    ensures
        r@ == export_line(name@, value@),
{
    String::from_str("export ").concat(name).concat("=\"").concat(value).concat("\"")
}

/// What has to be done to the shell profile so that the docker client finds the
/// daemon of the cluster.
pub fn point_docker_to_minikube_unix(profile: &str, env: &DockerEnv) -> (r: Result<
    Change,
    EditError,
>)
    ensures
        change_view(r) == docker_change(profile@, *env),
{
    let data = trim_text(profile);
    if contains(data.as_str(), env.host.as_str()) {
        Ok(Change::Unchanged)
    } else if contains(data.as_str(), "export DOCKER_HOST") {
        let line = export("DOCKER_HOST", env.host.as_str()).concat("\n");
        match regex_replace("(?m)^export DOCKER_HOST.*\n", data.as_str(), line.as_str()) {
            Some(t) => Ok(Change::Updated(t)),
            None => Err(EditError::BadPattern),
        }
    } else {
        let exports = String::from_str("\n").concat(
            export("DOCKER_TLS_VERIFY", env.tls_verify.as_str()).as_str(),
        ).concat("\n").concat(export("DOCKER_HOST", env.host.as_str()).as_str()).concat(
            "\n",
        ).concat(export("DOCKER_CERT_PATH", env.cert_path.as_str()).as_str()).concat("\n").concat(
            export("MINIKUBE_ACTIVE_DOCKERD", env.active_dockerd.as_str()).as_str(),
        );
        Ok(Change::Added(data.concat(exports.as_str()).concat("\n\n")))
    }
}

/// The settings that have to be written to the registry so that the docker
/// client finds the daemon of the cluster, as pairs of name and value: none where
/// the registry holds the host, the host alone where it holds another one, all
/// four where it holds none.
pub open spec fn docker_settings(current_host: Option<Seq<char>>, e: DockerEnv) -> Seq<
    (Seq<char>, Seq<char>),
> {
    match current_host {
        Some(current) => if current == e.host@ {
            Seq::empty()
        } else {
            seq![("DOCKER_HOST"@, e.host@)]
        },
        None => seq![
            ("DOCKER_TLS_VERIFY"@, e.tls_verify@),
            ("DOCKER_HOST"@, e.host@),
            ("DOCKER_CERT_PATH"@, e.cert_path@),
            ("MINIKUBE_ACTIVE_DOCKERD"@, e.active_dockerd@),
        ],
    }
}

/// The texts of a list of pairs.
pub open spec fn pair_texts(v: Seq<(String, String)>) -> Seq<(Seq<char>, Seq<char>)> {
    v.map_values(|p: (String, String)| (p.0@, p.1@))
}

fn setting(name: &str, value: &String) -> (p: (String, String))
    ensures
        p.0@ == name@,
        p.1@ == value@,
{
    (String::from_str(name), value.clone())
}

/// The settings that have to be written to the registry so that the docker
/// client finds the daemon of the cluster. `current_docker_host` is the host that
/// the registry holds, if any.
pub fn point_docker_to_minikube_windows(current_docker_host: Option<&str>, env: &DockerEnv) -> (r:
    Vec<(String, String)>)
    ensures
        pair_texts(r@) == docker_settings(
            match current_docker_host {
                Some(s) => Some(s@),
                None => None,
            },
            *env,
        ),
{
    match current_docker_host {
        Some(current) => {
            if same_text(current, env.host.as_str()) {
                let r: Vec<(String, String)> = Vec::new();
                r
            } else {
                let r = vec![setting("DOCKER_HOST", &env.host)];
                r
            }
        },
        None => {
            let r = vec![
                setting("DOCKER_TLS_VERIFY", &env.tls_verify),
                setting("DOCKER_HOST", &env.host),
                setting("DOCKER_CERT_PATH", &env.cert_path),
                setting("MINIKUBE_ACTIVE_DOCKERD", &env.active_dockerd),
            ];
            r
        },
    }
}

/// What has to be done so that the docker client finds the daemon of the
/// cluster: a change of the shell profile, or settings for the registry on
/// Windows.
#[derive(Clone, Debug, PartialEq, Eq)]
pub enum DockerPointing {
    Profile(Change),
    Registry(Vec<(String, String)>),
}

/// `r` is what has to be done on the system `os`. `text` is the shell profile,
/// or on Windows the host that the registry holds, if any.
pub open spec fn is_docker_pointing(
    os: TargetOs,
    text: Option<Seq<char>>,
    e: DockerEnv,
    r: Result<DockerPointing, EditError>,
) -> bool {
    if os is Windows {
        r matches Ok(DockerPointing::Registry(settings)) && pair_texts(settings@)
            == docker_settings(text, e)
    } else {
        let profile = match text {
            Some(t) => t,
            None => Seq::empty(),
        };
        match docker_change(profile, e) {
            Ok(change) => r matches Ok(DockerPointing::Profile(c)) && c@ == change,
            Err(error) => r == Err::<DockerPointing, EditError>(error),
        }
    }
}

/// What has to be done on the system `os` so that the docker client finds the
/// daemon of the cluster. `text` is the shell profile, or on Windows the host
/// that the registry holds, if any.
pub fn point_docker_to_minikube(os: TargetOs, text: Option<&str>, env: &DockerEnv) -> (r: Result<
    DockerPointing,
    EditError,
>)
    ensures
        is_docker_pointing(
            os,
            match text {
                Some(t) => Some(t@),
                None => None,
            },
            *env,
            r,
        ),
{
    match os {
        TargetOs::Windows => Ok(
            DockerPointing::Registry(point_docker_to_minikube_windows(text, env)),
        ),
        _ => {
            let nothing = String::new();
            let profile = match text {
                Some(t) => t,
                None => nothing.as_str(),
            };
            match point_docker_to_minikube_unix(profile, env) {
                Ok(change) => Ok(DockerPointing::Profile(change)),
                Err(e) => Err(e),
            }
        },
    }
}

/// The key of the registry under which the settings of the user are kept.
pub open spec fn environment_key() -> Seq<char> {
    "HKEY_CURRENT_USER\\Environment"@
}

/// The command that asks the registry for a setting.
pub open spec fn query_command(key: Seq<char>) -> Seq<Seq<char>> {
    seq!["reg"@, "query"@, environment_key(), "/v"@, key]
}

/// The command that removes a setting from the registry.
pub open spec fn delete_command(key: Seq<char>) -> Seq<Seq<char>> {
    seq!["reg"@, "delete"@, environment_key(), "/v"@, key, "/f"@]
}

/// The command that writes a setting to the registry.
pub open spec fn add_command(key: Seq<char>, value: Seq<char>) -> Seq<Seq<char>> {
    seq!["reg"@, "add"@, environment_key(), "/v"@, key, "/t"@, "REG_SZ"@, "/d"@, value, "/f"@]
}

/// The command that makes running programs take note of changed settings.
pub open spec fn refresh_command() -> Seq<Seq<char>> {
    seq!["SETX"@, "USERNAME"@, "%USERNAME%"@]
}

/// The command that sets a variable of the user.
pub open spec fn setx_command(key: Seq<char>, value: Seq<char>) -> Seq<Seq<char>> {
    seq!["SETX"@, key, value]
}

/// The command that asks the registry for the setting `key`.
pub fn registry_query(key: &str) -> (r: Vec<String>)
    ensures
        texts(r@) == query_command(key@),
{
    let r = vec![
        String::from_str("reg"),
        String::from_str("query"),
        String::from_str("HKEY_CURRENT_USER\\Environment"),
        String::from_str("/v"),
        String::from_str(key),
    ];
    r
}

/// The command that removes the setting `key` from the registry.
pub fn delete_from_environment(key: &str) -> (r: Vec<String>)
    ensures
        texts(r@) == delete_command(key@),
{
    let r = vec![
        String::from_str("reg"),
        String::from_str("delete"),
        String::from_str("HKEY_CURRENT_USER\\Environment"),
        String::from_str("/v"),
        String::from_str(key),
        String::from_str("/f"),
    ];
    r
}

/// The two commands that write the setting `key` to the registry and make
/// running programs take note of it.
pub fn write_to_environment(key: &str, value: &str) -> (r: Vec<Vec<String>>)
    ensures
        r@.len() == 2,
        texts(r@[0]@) == add_command(key@, value@),
        texts(r@[1]@) == refresh_command(),
{
    let add = vec![
        String::from_str("reg"),
        String::from_str("add"),
        String::from_str("HKEY_CURRENT_USER\\Environment"),
        String::from_str("/v"),
        String::from_str(key),
        String::from_str("/t"),
        String::from_str("REG_SZ"),
        String::from_str("/d"),
        String::from_str(value),
        String::from_str("/f"),
    ];
    let refresh = vec![
        String::from_str("SETX"),
        String::from_str("USERNAME"),
        String::from_str("%USERNAME%"),
    ];
    vec![add, refresh]
}

/// The command that sets the variable `key` of the user.
pub fn setx(key: &str, value: &str) -> (r: Vec<String>)
    ensures
        texts(r@) == setx_command(key@, value@),
{
    let r = vec![String::from_str("SETX"), String::from_str(key), String::from_str(value)];
    r
}

/// Why a setting could not be read from the registry.
#[derive(Clone, Debug, PartialEq, Eq)]
pub enum RegistryError {
    /// The command that asks the registry failed.
    Output(OutputError),
    /// The answer of the registry holds no value; the text is the key.
    NoValue(String),
}

/// The value in an answer of the registry: the last word of its last line.
pub open spec fn registry_value(answer: Seq<char>) -> Option<Seq<char>> {
    let ls = lines_of(answer);
    if ls.len() == 0 {
        None
    } else if words_of(ls.last()).len() == 0 {
        None
    } else {
        Some(words_of(ls.last()).last())
    }
}

/// The value in an answer of the registry.
pub fn parse_registry_value(answer: &str) -> (r: Option<String>)
    ensures
        optional_text(r) == registry_value(answer@),
{
    let ls = lines(&chars_of(answer));
    if ls.len() == 0 {
        return None;
    }
    let ws = words(&ls[ls.len() - 1]);
    if ws.len() == 0 {
        return None;
    }
    Some(string_of(&ws[ws.len() - 1]))
}

/// `r` is the value of the setting `key`, read from what the command that asks
/// the registry left behind: the error of the command where it failed, else the
/// value in its answer.
pub open spec fn is_registry_read(
    key: Seq<char>,
    output: ProcessOutput,
    r: Result<String, RegistryError>,
) -> bool {
    if !valid_utf8(output.stdout@) {
        r == Err::<String, RegistryError>(
            RegistryError::Output(OutputError::InvalidText(Channel::Stdout)),
        )
    } else if !valid_utf8(output.stderr@) {
        r == Err::<String, RegistryError>(
            RegistryError::Output(OutputError::InvalidText(Channel::Stderr)),
        )
    } else if !output.succeeded() {
        r matches Err(RegistryError::Output(OutputError::Failed(m))) && m@ == failure_text(
            trimmed(decode_utf8(output.stdout@)),
            trimmed(decode_utf8(output.stderr@)),
        )
    } else {
        match registry_value(trimmed(decode_utf8(output.stdout@))) {
            Some(value) => r matches Ok(v) && v@ == value,
            None => r matches Err(RegistryError::NoValue(k)) && k@ == key,
        }
    }
}

/// Reads the value of the setting `key` from what the command that asks the
/// registry left behind.
pub fn read_from_environment(key: &str, output: ProcessOutput) -> (r: Result<String, RegistryError>)
    ensures
        is_registry_read(key@, output, r),
{
    match handle_output(output) {
        Err(e) => Err(RegistryError::Output(e)),
        Ok(text) => match parse_registry_value(text.as_str()) {
            Some(value) => Ok(value),
            None => Err(RegistryError::NoValue(String::from_str(key))),
        },
    }
}

} // verus!
