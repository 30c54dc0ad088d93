//! The `[image]` table: checking it, and reading the files it names.

use crate::config::image::{file_model, file_models};
use crate::config::{ImageConfig, RawImageConfig, RegistryConfig, SetupFile, SETUP_SCRIPT_NAME};
use crate::digest::{content_tag, is_tag, tag_of};
use crate::error::{failure, fault, Failure, SodagunError};
use crate::path::{
    absolute, directory_of, file_name, join, join_path, path_directory, path_file_name,
};
use crate::table::Table;
use crate::text::{opt_text, same_text, texts};
use vstd::prelude::*;
use vstd::utf8::encode_utf8;

verus! {

/// The files that an `[image]` table names.
#[derive(Debug)]
pub struct ImageFiles {
    /// Must be a file; its contents are not needed.
    pub dockerfile: Option<String>,
    /// Must be readable as text.
    pub script: Option<String>,
    /// Must be readable.
    pub setup_files: Vec<String>,
}

/// What was found at the paths in [`ImageFiles`]; errors in printed form.
#[derive(Debug)]
pub struct ImageFileReplies {
    /// The directory that the path of a configuration file may start from.
    pub current_dir: String,
    pub dockerfile_is_file: bool,
    pub script: Result<String, String>,
    pub setup_files: Vec<Result<Vec<u8>, String>>,
}

// ── Models ────────────────────────────────────────────────────────────────────

/// The path of a file that the configuration file at `config` names.
pub open spec fn beside(config: Seq<char>, named: Seq<char>) -> Seq<char> {
    join(directory_of(config), named)
}

/// The path of a Dockerfile that the configuration file at `config` names; `config` may start from
/// the directory `current`.
pub open spec fn dockerfile_at(
    current: Seq<char>,
    config: Seq<char>,
    named: Seq<char>,
) -> Seq<char> {
    join(join(current, directory_of(config)), named)
}

/// What is wrong with the base of an image, if anything: a Dockerfile stands alone, and without
/// one there is either a base image or a base snapshot.
pub open spec fn base_complaint(raw: RawImageConfig) -> Option<Seq<char>> {
    if raw.dockerfile is Some && raw.base_image is Some {
        Some("'dockerfile' and 'base_image' are mutually exclusive in [image]"@)
    } else if raw.dockerfile is Some && raw.base_snapshot is Some {
        Some("'dockerfile' and 'base_snapshot' are mutually exclusive in [image]"@)
    } else if raw.dockerfile is None && raw.base_image is None && raw.base_snapshot is None {
        Some("one of 'base_image', 'base_snapshot', or 'dockerfile' is required in [image]"@)
    } else if raw.base_image is Some && raw.base_snapshot is Some {
        Some("'base_image' and 'base_snapshot' are mutually exclusive in [image]"@)
    } else if raw.setup_script is Some && raw.setup_script_path is Some {
        Some("'setup_script' and 'setup_script_path' are mutually exclusive in [image]"@)
    } else {
        None
    }
}

/// What is wrong with the Dockerfile, if anything.
pub open spec fn dockerfile_complaint(
    raw: RawImageConfig,
    config: Seq<char>,
    replies: ImageFileReplies,
) -> Option<Seq<char>> {
    match raw.dockerfile {
        Some(d) => if replies.dockerfile_is_file {
            None
        } else {
            Some(
                "dockerfile '"@ + dockerfile_at(replies.current_dir@, config, d@)
                    + "' does not exist or is not a file"@,
            )
        },
        None => None,
    }
}

/// What is wrong with the setup script's file, if anything.
pub open spec fn script_complaint(
    raw: RawImageConfig,
    config: Seq<char>,
    script: Result<String, String>,
) -> Option<Seq<char>> {
    match (raw.setup_script_path, script) {
        (Some(p), Err(why)) => Some(
            "failed to read setup_script_path '"@ + beside(config, p@) + "': "@ + why@,
        ),
        _ => None,
    }
}

/// What is wrong with one setup file, if anything.
pub open spec fn setup_file_complaint(
    named: Seq<char>,
    config: Seq<char>,
    reply: Result<Vec<u8>, String>,
) -> Option<Seq<char>> {
    match file_name(beside(config, named)) {
        None => Some("setup_files entry '"@ + named + "' has a non-UTF-8 basename"@),
        Some(name) => if name == SETUP_SCRIPT_NAME@ {
            Some(
                "setup_files entry '"@ + named + "' uses reserved name '"@ + SETUP_SCRIPT_NAME@
                    + "'"@,
            )
        } else {
            match reply {
                Ok(_) => None,
                Err(why) => Some(
                    "failed to read setup_files entry '"@ + beside(config, named) + "': "@ + why@,
                ),
            }
        },
    }
}

/// What is wrong with the first setup file that something is wrong with.
pub open spec fn setup_files_complaint(
    named: Seq<Seq<char>>,
    config: Seq<char>,
    replies: Seq<Result<Vec<u8>, String>>,
) -> Option<Seq<char>>
    decreases named.len(),
{
    if named.len() == 0 {
        None
    } else {
        match setup_files_complaint(named.drop_last(), config, replies) {
            Some(c) => Some(c),
            None => setup_file_complaint(named.last(), config, replies[named.len() - 1]),
        }
    }
}

/// What is wrong with an `[image]` table, if anything.
pub open spec fn image_complaint(
    raw: RawImageConfig,
    config: Seq<char>,
    replies: ImageFileReplies,
) -> Option<Seq<char>> {
    match base_complaint(raw) {
        Some(c) => Some(c),
        None => match dockerfile_complaint(raw, config, replies) {
            Some(c) => Some(c),
            None => match script_complaint(raw, config, replies.script) {
                Some(c) => Some(c),
                None => setup_files_complaint(
                    texts(raw.setup_files@),
                    config,
                    replies.setup_files@,
                ),
            },
        },
    }
}

/// The setup script: what its file holds, or what the table says.
pub open spec fn script_meant(raw: RawImageConfig, script: Result<String, String>) -> Option<
    Seq<char>,
> {
    match raw.setup_script_path {
        Some(_) => Some(script->Ok_0@),
        None => opt_text(raw.setup_script),
    }
}

/// The setup files: final names of the paths, and what the files hold.
pub open spec fn setup_files_meant(
    named: Seq<Seq<char>>,
    config: Seq<char>,
    replies: Seq<Result<Vec<u8>, String>>,
) -> Seq<(Seq<char>, Seq<u8>)> {
    Seq::new(
        named.len(),
        |i: int| (file_name(beside(config, named[i]))->0, replies[i]->Ok_0@),
    )
}

/// Whether `image` is what the table `raw` stands for.
pub open spec fn is_resolved(
    image: ImageConfig,
    raw: RawImageConfig,
    config: Seq<char>,
    replies: ImageFileReplies,
) -> bool {
    &&& image.base_image == raw.base_image
    &&& image.base_snapshot == raw.base_snapshot
    &&& opt_text(image.dockerfile) == match raw.dockerfile {
        Some(d) => Some(dockerfile_at(replies.current_dir@, config, d@)),
        None => None,
    }
    &&& image.namespace_repository == raw.namespace_repository
    &&& image.version == raw.version
    &&& opt_text(image.setup_script) == script_meant(raw, replies.script)
    &&& file_models(image.setup_files@) == setup_files_meant(
        texts(raw.setup_files@),
        config,
        replies.setup_files@,
    )
    &&& image.env == raw.env
}

// ── Code ──────────────────────────────────────────────────────────────────────

/// The image that is used where there is no configuration file.
pub fn default_image_config() -> (r: ImageConfig)
    ensures
        opt_text(r.base_image) == Some("alpine:latest"@),
        r.base_snapshot is None,
        r.dockerfile is None,
        r.namespace_repository is None,
        r.version is None,
        r.setup_script is None,
        r.setup_files@ == Seq::<SetupFile>::empty(),
        r.env@ == Map::<Seq<char>, String>::empty(),
{
    ImageConfig {
        base_image: Some("alpine:latest".to_owned()),
        base_snapshot: None,
        dockerfile: None,
        namespace_repository: None,
        version: None,
        setup_script: None,
        setup_files: Vec::new(),
        env: Table::new(),
    }
}

/// The paths of the files that an `[image]` table in the file `config_path` names; that of the
/// Dockerfile starts from `current_dir` where `config_path` does.
pub fn image_files(raw: &RawImageConfig, config_path: &str, current_dir: &str) -> (r: ImageFiles)
    ensures
        opt_text(r.dockerfile) == match raw.dockerfile {
            Some(d) => Some(dockerfile_at(current_dir@, config_path@, d@)),
            None => None,
        },
        opt_text(r.script) == match raw.setup_script_path {
            Some(p) => Some(beside(config_path@, p@)),
            None => None,
        },
        r.setup_files@.len() == raw.setup_files@.len(),
        forall|i: int|
            0 <= i < raw.setup_files@.len() ==> (#[trigger] r.setup_files@[i])@ == beside(
                config_path@,
                raw.setup_files@[i]@,
            ),
{
    let dir = path_directory(config_path);
    let dockerfile = match &raw.dockerfile {
        Some(d) => Some(join_path(join_path(current_dir, dir.as_str()).as_str(), d.as_str())),
        None => None,
    };
    let script = match &raw.setup_script_path {
        Some(p) => Some(join_path(dir.as_str(), p.as_str())),
        None => None,
    };
    let mut setup_files: Vec<String> = Vec::new();
    let mut i: usize = 0;
    while i < raw.setup_files.len()
        invariant
            i <= raw.setup_files.len(),
            dir@ == directory_of(config_path@),
            setup_files@.len() == i,
            forall|j: int|
                0 <= j < i ==> (#[trigger] setup_files@[j])@ == beside(
                    config_path@,
                    raw.setup_files@[j]@,
                ),
        decreases raw.setup_files.len() - i,
    {
        setup_files.push(join_path(dir.as_str(), raw.setup_files[i].as_str()));
        i += 1;
    }
    ImageFiles { dockerfile, script, setup_files }
}

/// An error about a configuration.
fn invalid_config(message: String) -> (e: SodagunError)
    ensures
        e@ == failure("CONFIG_INVALID"@, message@),
{
    fault("CONFIG_INVALID", message)
}

/// Checks the base of an image.
fn check_base(raw: &RawImageConfig) -> (r: Result<(), SodagunError>)
    ensures
        match r {
            Ok(()) => base_complaint(*raw) is None,
            Err(e) => base_complaint(*raw) is Some && e@ == failure(
                "CONFIG_INVALID"@,
                base_complaint(*raw)->0,
            ),
        },
{
    let has_dockerfile = raw.dockerfile.is_some();
    let has_image = raw.base_image.is_some();
    let has_snapshot = raw.base_snapshot.is_some();
    let message = if has_dockerfile && has_image {
        "'dockerfile' and 'base_image' are mutually exclusive in [image]"
    } else if has_dockerfile && has_snapshot {
        "'dockerfile' and 'base_snapshot' are mutually exclusive in [image]"
    } else if !has_dockerfile && !has_image && !has_snapshot {
        "one of 'base_image', 'base_snapshot', or 'dockerfile' is required in [image]"
    } else if has_image && has_snapshot {
        "'base_image' and 'base_snapshot' are mutually exclusive in [image]"
    } else if raw.setup_script.is_some() && raw.setup_script_path.is_some() {
        "'setup_script' and 'setup_script_path' are mutually exclusive in [image]"
    } else {
        return Ok(());
    };
    Err(invalid_config(message.to_owned()))
}

/// One setup file: its name in the guest and its contents.
fn resolve_setup_file(
    named: &str,
    config: Ghost<Seq<char>>,
    dir: &str,
    reply: Result<Vec<u8>, String>,
) -> (r: Result<SetupFile, SodagunError>)
    requires
        dir@ == directory_of(config@),
    ensures
        match r {
            Ok(f) => {
                &&& setup_file_complaint(named@, config@, reply) is None
                &&& file_model(f) == (file_name(beside(config@, named@))->0, reply->Ok_0@)
            },
            Err(e) => {
                &&& setup_file_complaint(named@, config@, reply) is Some
                &&& e@ == failure(
                    "CONFIG_INVALID"@,
                    setup_file_complaint(named@, config@, reply)->0,
                )
            },
        },
{
    let abs = join_path(dir, named);
    let start = "setup_files entry '".to_owned().concat(named);
    let name = match path_file_name(abs.as_str()) {
        Some(n) => n,
        None => return Err(invalid_config(start.concat("' has a non-UTF-8 basename"))),
    };
    if same_text(name.as_str(), SETUP_SCRIPT_NAME) {
        return Err(
            invalid_config(
                start.concat("' uses reserved name '").concat(SETUP_SCRIPT_NAME).concat("'"),
            ),
        );
    }
    match reply {
        Ok(content) => Ok(SetupFile { name, content }),
        Err(why) => Err(
            invalid_config(
                "failed to read setup_files entry '".to_owned().concat(abs.as_str()).concat(
                    "': ",
                ).concat(why.as_str()),
            ),
        ),
    }
}

/// The setup files of an image.
fn resolve_setup_files(
    named: &Vec<String>,
    config_path: &str,
    replies: Vec<Result<Vec<u8>, String>>,
) -> (r: Result<Vec<SetupFile>, SodagunError>)
    requires
        replies@.len() == named@.len(),
    ensures
        match r {
            Ok(files) => {
                &&& setup_files_complaint(texts(named@), config_path@, replies@) is None
                &&& file_models(files@) == setup_files_meant(
                    texts(named@),
                    config_path@,
                    replies@,
                )
            },
            Err(e) => {
                &&& setup_files_complaint(texts(named@), config_path@, replies@) is Some
                &&& e@ == failure(
                    "CONFIG_INVALID"@,
                    setup_files_complaint(texts(named@), config_path@, replies@)->0,
                )
            },
        },
{
    let ghost all = texts(named@);
    let ghost given = replies@;
    let dir = path_directory(config_path);
    let mut files: Vec<SetupFile> = Vec::new();
    let mut i: usize = 0;
    assert(file_models(files@) =~= setup_files_meant(all.take(0), config_path@, given));
    for reply in it: replies
        invariant
            it.seq() == given,
            i == it.index(),
            i <= named.len(),
            given.len() == named@.len(),
            all == texts(named@),
            dir@ == directory_of(config_path@),
            setup_files_complaint(all.take(i as int), config_path@, given) is None,
            file_models(files@) == setup_files_meant(all.take(i as int), config_path@, given),
    {
        proof {
            assert(all.take(i + 1).drop_last() =~= all.take(i as int));
            assert(all.take(i + 1).last() == named@[i as int]@);
        }
        match resolve_setup_file(named[i].as_str(), Ghost(config_path@), dir.as_str(), reply) {
            Ok(f) => {
                let ghost before = files@;
                files.push(f);
                assert(file_models(files@) =~= file_models(before).push(file_model(f)));
                assert(file_models(files@) =~= setup_files_meant(
                    all.take(i + 1),
                    config_path@,
                    given,
                ));
            },
            Err(e) => {
                proof {
                    lemma_first_complaint(all, config_path@, given, i + 1);
                }
                return Err(e);
            },
        }
        i += 1;
    }
    assert(all.take(i as int) =~= all);
    Ok(files)
}

/// What is wrong with the first `n` setup files is wrong with all.
proof fn lemma_first_complaint(
    named: Seq<Seq<char>>,
    config: Seq<char>,
    replies: Seq<Result<Vec<u8>, String>>,
    n: int,
)
    requires
        0 <= n <= named.len(),
        setup_files_complaint(named.take(n), config, replies) is Some,
    ensures
        setup_files_complaint(named, config, replies) == setup_files_complaint(
            named.take(n),
            config,
            replies,
        ),
    decreases named.len(),
{
    if n < named.len() {
        assert(named.drop_last().take(n) =~= named.take(n));
        lemma_first_complaint(named.drop_last(), config, replies, n);
    } else {
        assert(named.take(n) =~= named);
    }
}

/// Checks an `[image]` table and puts the files it names in their places. `replies` answers
/// [`image_files`], one reply for each setup file.
pub fn validate_image_config(
    raw: RawImageConfig,
    config_path: &str,
    replies: ImageFileReplies,
) -> (r: Result<ImageConfig, SodagunError>)
    requires
        replies.setup_files@.len() == raw.setup_files@.len(),
    ensures
        match r {
            Ok(image) => {
                &&& image_complaint(raw, config_path@, replies) is None
                &&& is_resolved(image, raw, config_path@, replies)
                &&& absolute(replies.current_dir@) && image.dockerfile is Some ==> absolute(
                    image.dockerfile->0@,
                )
            },
            Err(e) => {
                &&& image_complaint(raw, config_path@, replies) is Some
                &&& e@ == failure(
                    "CONFIG_INVALID"@,
                    image_complaint(raw, config_path@, replies)->0,
                )
            },
        },
{
    if let Err(e) = check_base(&raw) {
        return Err(e);
    }
    let files = image_files(&raw, config_path, replies.current_dir.as_str());
    if let Some(path) = &files.dockerfile {
        if !replies.dockerfile_is_file {
            return Err(
                invalid_config(
                    "dockerfile '".to_owned().concat(path.as_str()).concat(
                        "' does not exist or is not a file",
                    ),
                ),
            );
        }
    }
    let setup_script = match files.script {
        Some(path) => match replies.script {
            Ok(text) => Some(text),
            Err(why) => {
                return Err(
                    invalid_config(
                        "failed to read setup_script_path '".to_owned().concat(
                            path.as_str(),
                        ).concat("': ").concat(why.as_str()),
                    ),
                );
            },
        },
        None => raw.setup_script,
    };
    let setup_files = match resolve_setup_files(
        &raw.setup_files,
        config_path,
        replies.setup_files,
    ) {
        Ok(f) => f,
        Err(e) => return Err(e),
    };
    Ok(
        ImageConfig {
            base_image: raw.base_image,
            base_snapshot: raw.base_snapshot,
            dockerfile: files.dockerfile,
            namespace_repository: raw.namespace_repository,
            version: raw.version,
            setup_script,
            setup_files,
            env: raw.env,
        },
    )
}

/// The Dockerfile that an image is made from. Without one there is nothing to build.
pub fn image_to_build(image: &ImageConfig) -> (r: Result<String, SodagunError>)
    ensures
        match r {
            Ok(path) => opt_text(image.dockerfile) == Some(path@),
            Err(e) => image.dockerfile is None && e@ == failure(
                "CONFIG_INVALID"@,
                "no 'dockerfile' in [image] — nothing to build"@,
            ),
        },
{
    match &image.dockerfile {
        Some(path) => Ok(path.clone()),
        None => Err(invalid_config("no 'dockerfile' in [image] — nothing to build".to_owned())),
    }
}

// ── Image tags ────────────────────────────────────────────────────────────────

/// The version of an image.
pub open spec fn version_of(image: ImageConfig) -> Seq<char> {
    match image.version {
        Some(v) => v@,
        None => "1"@,
    }
}

/// The reference of an image: host, repository and tag.
pub open spec fn reference(host: Seq<char>, repository: Seq<char>, tag: Seq<char>) -> Seq<char> {
    host + "/"@ + repository + ":"@ + tag
}

/// The reference of an image: host, repository and tag.
pub fn image_reference(host: &str, repository: &str, tag: &str) -> (r: String)
    ensures
        r@ == reference(host@, repository@, tag@),
{
    host.to_owned().concat("/").concat(repository).concat(":").concat(tag)
}

/// The tag of the image that a Dockerfile makes, or what is missing for it: host, repository and
/// a name for Dockerfile and version.
pub open spec fn image_tag(
    image: ImageConfig,
    registry: RegistryConfig,
    dockerfile: Seq<u8>,
) -> Result<Seq<char>, Failure> {
    match (image.namespace_repository, registry.host) {
        (None, _) => Err(
            failure(
                "CONFIG_INVALID"@,
                "image.namespace_repository is required when using a dockerfile"@,
            ),
        ),
        (Some(_), None) => Err(
            failure(
                "CONFIG_INVALID"@,
                "registry.host is required when using a dockerfile"@,
            ),
        ),
        (Some(repository), Some(host)) => Ok(
            reference(
                host@,
                repository@,
                content_tag(dockerfile + encode_utf8(version_of(image))),
            ),
        ),
    }
}

/// The tag of the image that a Dockerfile makes.
pub fn dockerfile_image_tag(
    image_config: &ImageConfig,
    registry: &RegistryConfig,
    dockerfile_bytes: &[u8],
) -> (r: Result<String, SodagunError>)
    ensures
        match r {
            Ok(tag) => {
                &&& image_tag(*image_config, *registry, dockerfile_bytes@) == Ok::<
                    Seq<char>,
                    Failure,
                >(tag@)
                &&& is_tag(content_tag(dockerfile_bytes@ + encode_utf8(version_of(*image_config))))
            },
            Err(e) => image_tag(*image_config, *registry, dockerfile_bytes@) == Err::<
                Seq<char>,
                Failure,
            >(e@),
        },
{
    let repository = match &image_config.namespace_repository {
        Some(n) => n,
        None => {
            return Err(
                invalid_config(
                    "image.namespace_repository is required when using a dockerfile".to_owned(),
                ),
            );
        },
    };
    let host = match &registry.host {
        Some(h) => h,
        None => {
            return Err(
                invalid_config("registry.host is required when using a dockerfile".to_owned()),
            );
        },
    };
    let version = match &image_config.version {
        Some(v) => v.as_str(),
        None => "1",
    };
    let mut bytes: Vec<u8> = Vec::new();
    bytes.extend_from_slice(dockerfile_bytes);
    bytes.extend_from_slice(version.as_bytes());
    assert(bytes@ =~= dockerfile_bytes@ + encode_utf8(version_of(*image_config)));
    let tag = tag_of(bytes.as_slice());
    Ok(image_reference(host.as_str(), repository.as_str(), tag.as_str()))
}

// ── Laws ──────────────────────────────────────────────────────────────────────

/// A table that is accepted has exactly one of base image, base snapshot and Dockerfile.
pub proof fn law_one_base(raw: RawImageConfig)
    requires
        base_complaint(raw) is None,
    ensures
        ({
            let a: int = if raw.base_image is Some { 1 } else { 0 };
            let b: int = if raw.base_snapshot is Some { 1 } else { 0 };
            let c: int = if raw.dockerfile is Some { 1 } else { 0 };
            a + b + c == 1
        }),
{
}

/// The Dockerfile of an image has an absolute path, wherever the configuration file lies, if the
/// current directory has one.
pub proof fn law_dockerfile_path_is_absolute(
    image: ImageConfig,
    raw: RawImageConfig,
    config: Seq<char>,
    replies: ImageFileReplies,
)
    requires
        is_resolved(image, raw, config, replies),
        absolute(replies.current_dir@),
        raw.dockerfile is Some,
    ensures
        image.dockerfile is Some,
        absolute(image.dockerfile->0@),
{
}

/// No setup file of an accepted table takes the place of the setup script.
pub proof fn law_script_is_not_overwritten(
    named: Seq<Seq<char>>,
    config: Seq<char>,
    replies: Seq<Result<Vec<u8>, String>>,
    i: int,
)
    requires
        setup_files_complaint(named, config, replies) is None,
        0 <= i < named.len(),
    ensures
        setup_files_meant(named, config, replies)[i].0 != SETUP_SCRIPT_NAME@,
    decreases named.len(),
{
    if i < named.len() - 1 {
        law_script_is_not_overwritten(named.drop_last(), config, replies, i);
        assert(setup_files_meant(named, config, replies)[i] == setup_files_meant(
            named.drop_last(),
            config,
            replies,
        )[i]);
    }
}

} // verus!
