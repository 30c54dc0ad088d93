//! Laws of images: the `[image]` table, snapshot names and image tags.

use crate::config::{ImageConfig, RawImageConfig, RegistryConfig, SetupFile};
use crate::config::image::{by_name, file_bytes, file_models, setup_bytes, snapshot_name};
use crate::config::image_table::{
    dockerfile_image_tag, image_files, image_to_build, setup_file_complaint, setup_files_complaint,
    setup_files_meant, validate_image_config, ImageFileReplies, ImageFiles,
};
use crate::digest::{content_tag, is_tag, url_safe};
use crate::error::SodagunError;
use crate::path::{directory_of, file_name, join};
use crate::text::{opt_text, texts};
use crate::util::dashed;
use vstd::prelude::*;
use vstd::utf8::encode_utf8;

verus! {

// ── The table ─────────────────────────────────────────────────────────────────

/// What a table says is in the image as it stands: base, repository, version and variables.
pub proof fn law_image_keeps_the_table(
    raw: RawImageConfig,
    path: &str,
    replies: ImageFileReplies,
    image: ImageConfig,
)
    requires
        call_ensures(validate_image_config, (raw, path, replies), Ok(image)),
    ensures
        image.base_image == raw.base_image,
        image.base_snapshot == raw.base_snapshot,
        image.namespace_repository == raw.namespace_repository,
        image.version == raw.version,
        image.env == raw.env,
        image.dockerfile is Some <==> raw.dockerfile is Some,
{
}

/// The setup script of an image is what the file holds that the table names, or else what the
/// table itself says.
pub proof fn law_image_has_its_script(
    raw: RawImageConfig,
    path: &str,
    replies: ImageFileReplies,
    image: ImageConfig,
)
    requires
        call_ensures(validate_image_config, (raw, path, replies), Ok(image)),
    ensures
        raw.setup_script_path is Some ==> {
            &&& replies.script is Ok
            &&& image.setup_script is Some
            &&& image.setup_script->0@ == replies.script->Ok_0@
        },
        raw.setup_script_path is None ==> opt_text(image.setup_script) == opt_text(
            raw.setup_script,
        ),
        !(raw.setup_script is Some && raw.setup_script_path is Some),
{
}

proof fn lemma_setup_files(
    named: Seq<Seq<char>>,
    config: Seq<char>,
    replies: Seq<Result<Vec<u8>, String>>,
)
    ensures
        setup_files_complaint(named, config, replies) is None <==> forall|i: int|
            0 <= i < named.len() ==> setup_file_complaint(
                #[trigger] named[i],
                config,
                replies[i],
            ) is None,
    decreases named.len(),
{
    if named.len() > 0 {
        let init = named.drop_last();
        lemma_setup_files(init, config, replies);
        assert(forall|i: int| 0 <= i < init.len() ==> init[i] == named[i]);
        assert(named[named.len() - 1] == named.last());
        if setup_files_complaint(init, config, replies) is Some {
            let k = choose|i: int|
                0 <= i < init.len() && setup_file_complaint(
                    #[trigger] init[i],
                    config,
                    replies[i],
                ) is Some;
            assert(named[k] == init[k]);
        }
    }
}

/// Each setup file that the table names is in the image, in its place: under the final name of its
/// path, with just the bytes that the file holds. None has the name of the setup script.
pub proof fn law_image_has_its_files(
    raw: RawImageConfig,
    path: &str,
    replies: ImageFileReplies,
    image: ImageConfig,
    i: int,
)
    requires
        replies.setup_files@.len() == raw.setup_files@.len(),
        call_ensures(validate_image_config, (raw, path, replies), Ok(image)),
        0 <= i < raw.setup_files@.len(),
    ensures
        image.setup_files@.len() == raw.setup_files@.len(),
        replies.setup_files@[i] is Ok,
        image.setup_files@[i].content@ == replies.setup_files@[i]->Ok_0@,
        file_name(join(directory_of(path@), raw.setup_files@[i]@)) == Some(
            image.setup_files@[i].name@,
        ),
        image.setup_files@[i].name@ != "_setup"@,
{
    let named = texts(raw.setup_files@);
    let m = file_models(image.setup_files@);
    lemma_setup_files(named, path@, replies.setup_files@);
    assert(m.len() == image.setup_files@.len());
    assert(named[i] == raw.setup_files@[i]@);
    assert(setup_file_complaint(named[i], path@, replies.setup_files@[i]) is None);
    assert(m[i] == (image.setup_files@[i].name@, image.setup_files@[i].content@));
    assert(m[i] == setup_files_meant(named, path@, replies.setup_files@)[i]);
}

/// A table is accepted exactly where it has one base and not more than one setup script, its
/// Dockerfile is a file, its setup script can be read, and each of its setup files can be read and
/// has a name that is not that of the setup script. Everything else is an invalid configuration.
pub proof fn law_tables_that_are_accepted(
    raw: RawImageConfig,
    path: &str,
    replies: ImageFileReplies,
    r: Result<ImageConfig, SodagunError>,
)
    requires
        replies.setup_files@.len() == raw.setup_files@.len(),
        call_ensures(validate_image_config, (raw, path, replies), r),
    ensures
        r is Ok <==> {
            let a: int = if raw.base_image is Some { 1 } else { 0 };
            let b: int = if raw.base_snapshot is Some { 1 } else { 0 };
            let c: int = if raw.dockerfile is Some { 1 } else { 0 };
            &&& a + b + c == 1
            &&& raw.setup_script is None || raw.setup_script_path is None
            &&& raw.dockerfile is Some ==> replies.dockerfile_is_file
            &&& raw.setup_script_path is Some ==> replies.script is Ok
            &&& forall|i: int|
                0 <= i < raw.setup_files@.len() ==> {
                    let name = file_name(
                        join(directory_of(path@), (#[trigger] raw.setup_files@[i])@),
                    );
                    &&& name is Some
                    &&& name->0 != "_setup"@
                    &&& replies.setup_files@[i] is Ok
                }
        },
        r is Err ==> r->Err_0@.code == "CONFIG_INVALID"@,
{
    let named = texts(raw.setup_files@);
    lemma_setup_files(named, path@, replies.setup_files@);
    assert(named.len() == raw.setup_files@.len());
    assert(forall|i: int|
        0 <= i < named.len() ==> named[i] == (#[trigger] raw.setup_files@[i])@);
    if setup_files_complaint(named, path@, replies.setup_files@) is Some {
        let k = choose|i: int|
            0 <= i < named.len() && setup_file_complaint(
                #[trigger] named[i],
                path@,
                replies.setup_files@[i],
            ) is Some;
        assert(named[k] == raw.setup_files@[k]@);
    } else {
        assert forall|i: int| 0 <= i < raw.setup_files@.len() implies {
            let name = file_name(join(directory_of(path@), (#[trigger] raw.setup_files@[i])@));
            &&& name is Some
            &&& name->0 != "_setup"@
            &&& replies.setup_files@[i] is Ok
        } by {
            assert(setup_file_complaint(named[i], path@, replies.setup_files@[i]) is None);
        }
    }
}

/// The files that a table names are looked for beside the configuration file, and the Dockerfile
/// from the current directory on.
pub proof fn law_files_are_beside_the_configuration(
    raw: RawImageConfig,
    path: &str,
    current: &str,
    r: ImageFiles,
    i: int,
)
    requires
        call_ensures(image_files, (&raw, path, current), r),
    ensures
        r.script is Some <==> raw.setup_script_path is Some,
        r.script is Some ==> r.script->0@ == join(directory_of(path@), raw.setup_script_path->0@),
        r.dockerfile is Some <==> raw.dockerfile is Some,
        r.dockerfile is Some ==> r.dockerfile->0@ == join(
            join(current@, directory_of(path@)),
            raw.dockerfile->0@,
        ),
        r.setup_files@.len() == raw.setup_files@.len(),
        0 <= i < raw.setup_files@.len() ==> r.setup_files@[i]@ == join(
            directory_of(path@),
            raw.setup_files@[i]@,
        ),
{
}

/// An image is built from its Dockerfile, and only where it has one.
pub proof fn law_only_dockerfiles_are_built(image: ImageConfig, r: Result<String, SodagunError>)
    requires
        call_ensures(image_to_build, (&image,), r),
    ensures
        image.dockerfile is Some ==> r is Ok && r->Ok_0@ == image.dockerfile->0@,
        image.dockerfile is None ==> r is Err && r->Err_0@.code == "CONFIG_INVALID"@,
{
}

// ── Snapshot names ────────────────────────────────────────────────────────────

/// The name of a snapshot is its base with `-` in place of what separates, a `_`, and twelve
/// characters that are safe in a URL; the base alone decides the first part.
pub proof fn law_snapshot_name_has_its_base(
    base: &str,
    script: &str,
    files: &[SetupFile],
    r: String,
    i: int,
)
    requires
        call_ensures(snapshot_name, (base, script, files), r),
        0 <= i < base@.len(),
    ensures
        r@.len() == base@.len() + 13,
        r@[base@.len() as int] == '_',
        r@[i] == (if base@[i] == '/' || base@[i] == '_' || base@[i] == ':' || base@[i] == '@'
            || base@[i] == ' ' {
            '-'
        } else {
            base@[i]
        }),
        forall|k: int| base@.len() < k < r@.len() ==> url_safe(#[trigger] r@[k]),
{
    reveal_strlit("_");
    let n = base@.len() as int;
    let d = dashed(base@);
    crate::util::law_dashing(base@);
    let tag = r@.skip(n + 1);
    assert(is_tag(tag));
    assert(r@.take(n + 1) == d + "_"@);
    assert(r@[n] == r@.take(n + 1)[n]);
    assert(r@[i] == r@.take(n + 1)[i]);
    assert(r@[i] == d[i]);
    let from = crate::util::separators();
    assert(from[0] == '/' && from[1] == '_' && from[2] == ':' && from[3] == '@' && from[4] == ' ');
    if from.contains(base@[i]) {
        let k = choose|k: int| 0 <= k < from.len() && from[k] == base@[i];
    }
    assert forall|k: int| n < k < r@.len() implies url_safe(#[trigger] r@[k]) by {
        assert(r@[k] == tag[k - n - 1]);
    }
}

/// Script and files alone decide the last part: snapshots of one script and the same files have it
/// in common, whatever their bases are.
pub proof fn law_snapshot_tag_is_that_of_the_setup(
    base: &str,
    other: &str,
    script: &str,
    files: &[SetupFile],
    r: String,
    s: String,
)
    requires
        call_ensures(snapshot_name, (base, script, files), r),
        call_ensures(snapshot_name, (other, script, files), s),
    ensures
        r@.skip(base@.len() as int) == s@.skip(other@.len() as int),
        base@ == other@ ==> r@ == s@,
        r@.skip(base@.len() as int) == "_"@ + content_tag(
            encode_utf8(script@) + file_bytes(by_name(file_models(files@))),
        ),
{
    let tag = content_tag(setup_bytes(script@, file_models(files@)));
    assert(r@.skip(base@.len() as int) =~= "_"@ + tag);
    assert(s@.skip(other@.len() as int) =~= "_"@ + tag);
}

/// What is hashed of the files is their names and contents, in their order, and all of them: the
/// bytes of two lots are those of the first and then those of the second, and the bytes of one
/// file are its name and its content.
pub proof fn law_names_and_contents_are_hashed(
    first: Seq<(Seq<char>, Seq<u8>)>,
    second: Seq<(Seq<char>, Seq<u8>)>,
    one: (Seq<char>, Seq<u8>),
)
    ensures
        file_bytes(first + second) == file_bytes(first) + file_bytes(second),
        file_bytes(seq![one]) == encode_utf8(one.0) + one.1,
        file_bytes(Seq::empty()).len() == 0,
    decreases second.len(),
{
    reveal_with_fuel(file_bytes, 2);
    assert(seq![one].drop_last() =~= Seq::empty());
    assert(file_bytes(seq![one]) =~= encode_utf8(one.0) + one.1);
    if second.len() == 0 {
        assert(first + second =~= first);
        assert(file_bytes(first) + file_bytes(second) =~= file_bytes(first));
    } else {
        law_names_and_contents_are_hashed(first, second.drop_last(), one);
        assert((first + second).drop_last() =~= first + second.drop_last());
        assert((first + second).last() == second.last());
        assert(file_bytes(first + second) =~= file_bytes(first) + file_bytes(second));
    }
}

/// An image has a snapshot exactly where it has a setup script, and the snapshot is named after
/// its base image, or else after its base snapshot, with that script and with its files.
pub proof fn law_image_snapshot(
    image: ImageConfig,
    r: Option<String>,
    base: &str,
    script: &str,
    files: &[SetupFile],
    named: String,
)
    requires
        call_ensures(ImageConfig::derived_snapshot_name, (&image,), r),
        call_ensures(snapshot_name, (base, script, files), named),
        files@ == image.setup_files@,
    ensures
        r is Some <==> image.setup_script is Some,
        r is Some && script@ == image.setup_script->0@ && image.base_image is Some && base@
            == image.base_image->0@ ==> r->0@ == named@,
        r is Some && script@ == image.setup_script->0@ && image.base_image is None
            && image.base_snapshot is Some && base@ == image.base_snapshot->0@ ==> r->0@
            == named@,
{
}

// ── Image tags ────────────────────────────────────────────────────────────────

/// The tag of an image is the registry's host, a slash, the repository, a colon and twelve
/// characters; it is known exactly where host and repository are.
pub proof fn law_image_tag_has_its_parts(
    image: ImageConfig,
    registry: RegistryConfig,
    dockerfile: &[u8],
    r: Result<String, SodagunError>,
) -> (tag: Seq<char>)
    requires
        call_ensures(dockerfile_image_tag, (&image, &registry, dockerfile), r),
    ensures
        r is Ok <==> image.namespace_repository is Some && registry.host is Some,
        r is Ok ==> r->Ok_0@ == registry.host->0@ + "/"@ + image.namespace_repository->0@ + ":"@
            + tag && tag.len() == 12,
        r is Err ==> r->Err_0@.code == "CONFIG_INVALID"@,
{
    content_tag(
        dockerfile@ + encode_utf8(
            match image.version {
                Some(v) => v@,
                None => "1"@,
            },
        ),
    )
}

/// An image without a version has the tag of version 1. The tag depends on host, repository,
/// version and Dockerfile, and on nothing else.
pub proof fn law_image_tag_depends_on(
    image: ImageConfig,
    other: ImageConfig,
    registry: RegistryConfig,
    dockerfile: &[u8],
    r: Result<String, SodagunError>,
    s: Result<String, SodagunError>,
)
    requires
        call_ensures(dockerfile_image_tag, (&image, &registry, dockerfile), r),
        call_ensures(dockerfile_image_tag, (&other, &registry, dockerfile), s),
        opt_text(image.namespace_repository) == opt_text(other.namespace_repository),
        ({
            ||| opt_text(image.version) == opt_text(other.version)
            ||| image.version is None && other.version is Some && other.version->0@ == "1"@
        }),
    ensures
        r is Ok <==> s is Ok,
        r is Ok ==> r->Ok_0@ == s->Ok_0@,
{
}

/// The version counts: what is hashed for an image's tag is the Dockerfile and then the version.
pub proof fn law_image_tag_hashes_dockerfile_and_version(
    image: ImageConfig,
    registry: RegistryConfig,
    dockerfile: &[u8],
    r: String,
)
    requires
        call_ensures(dockerfile_image_tag, (&image, &registry, dockerfile), Ok(r)),
        image.version is Some,
    ensures
        r@.skip(r@.len() - 12) == content_tag(dockerfile@ + encode_utf8(image.version->0@)),
{
    let tag = content_tag(dockerfile@ + encode_utf8(image.version->0@));
    assert(r@.skip(r@.len() - 12) =~= tag);
}

} // verus!
