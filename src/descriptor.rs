//! Resolution of the built archive and emission of the deployment descriptor
//! that binds a context path to the directory served for it.

use vstd::prelude::*;
use vstd::utf8::{decode_utf8, valid_utf8};
use crate::error::DeployError;
use crate::paths::{
    descriptor_file_name, descriptor_name, file_stem, find_last, join, joined, last_index,
    normalize, normalized, stem_of,
};

verus! {

#[verifier::external_type_specification]
#[verifier::external_body]
pub struct ExEmitterError(xml::writer::Error);

/// How one character of an attribute value is written in XML.
pub open spec fn attr_escaped(c: char) -> Seq<char> {
    if c == '<' {
        "&lt;"@
    } else if c == '>' {
        "&gt;"@
    } else if c == '"' {
        "&quot;"@
    } else if c == '\'' {
        "&apos;"@
    } else if c == '&' {
        "&amp;"@
    } else if c == '\n' {
        "&#xA;"@
    } else if c == '\r' {
        "&#xD;"@
    } else {
        seq![c]
    }
}

/// An attribute value with its markup characters escaped.
pub open spec fn escape_attr(s: Seq<char>) -> Seq<char>
    decreases s.len(),
{
    if s.len() == 0 {
        Seq::empty()
    } else {
        escape_attr(s.drop_last()) + attr_escaped(s.last())
    }
}

/// The descriptor's text: one self-closing `Context` element with the
/// attributes `path` and `docBase`, and no XML declaration.
pub open spec fn context_element(path: Seq<char>, doc_base: Seq<char>) -> Seq<char> {
    "<Context path=\""@ + escape_attr(path) + "\" docBase=\""@ + escape_attr(doc_base) + "\"/>"@
}

/// Relies on xml-rs's `EventWriter` (configured by `EmitterConfig` without
/// document declaration and without padding before `/>`): a start element
/// followed at once by its end element is written as one self-closing tag,
/// and attribute values go through its attribute escapes. Writing into a
/// `Vec` sink, with the end element closing the start element just written,
/// meets none of its error cases.
#[verifier::external_body]
fn emit_context_element(path: &str, doc_base: &str) -> (r: Result<Vec<u8>, xml::writer::Error>)
    ensures
        r is Ok,
        r is Ok ==> valid_utf8(r->Ok_0@) && decode_utf8(r->Ok_0@) == context_element(
            path@,
            doc_base@,
        ),
{
    let mut writer = xml::EmitterConfig::new().write_document_declaration(false).pad_self_closing(
        false,
    ).create_writer(Vec::new());
    writer.write(
        xml::writer::XmlEvent::start_element("Context").attr("path", path).attr("docBase", doc_base),
    )?;
    writer.write(xml::writer::XmlEvent::end_element())?;
    Ok(writer.into_inner())
}

/// The glob pattern that matches the archives a build project produces.
pub open spec fn artifact_glob(project: Seq<char>) -> Seq<char> {
    joined(joined(project, "target"@), "*.war"@)
}

/// The directory that holds the entry at path `p` (`p` up to its last `/`).
pub open spec fn parent_dir(p: Seq<char>) -> Seq<char> {
    let i = last_index(p, '/');
    if i > 0 {
        p.subrange(0, i)
    } else if i == 0 {
        seq!['/']
    } else {
        Seq::empty()
    }
}

/// The last component of the path `p`.
pub open spec fn base_name(p: Seq<char>) -> Seq<char> {
    p.subrange(last_index(p, '/') + 1, p.len() as int)
}

/// A matched build archive, split into the directory that holds it and its
/// name without the archive extension.
pub struct Artifact {
    pub parent: String,
    pub stem: String,
}

/// The deployment descriptor to be written: its file name and its bytes.
pub struct Descriptor {
    pub file_name: String,
    pub content: Vec<u8>,
}

/// The glob pattern `<project>/target/*.war` under which the build archive is
/// looked for.
pub fn artifact_pattern(project_path: &str) -> (r: String)
    ensures
        r@ == artifact_glob(project_path@),
{
    let t = join(project_path, "target");
    proof {
        reveal_strlit("target");
    }
    let r = join(t.as_str(), "*.war");
    proof {
        reveal_strlit("*.war");
    }
    r
}

/// Resolves the first archive the search matched, if any, into its parent
/// directory and its stem.
pub fn resolve_artifact(first_match: Option<String>) -> (r: Result<Artifact, DeployError>)
    ensures
        first_match is None ==> r == Err::<Artifact, DeployError>(DeployError::ArtifactNotFound),
        first_match is Some ==> {
            let p = first_match->Some_0@;
            &&& base_name(p).len() == 0 ==> r == Err::<Artifact, DeployError>(
                DeployError::InvalidPath,
            )
            &&& base_name(p).len() > 0 ==> r is Ok && r->Ok_0.parent@ == parent_dir(p)
                && r->Ok_0.stem@ == file_stem(base_name(p))
        },
{
    match first_match {
        None => Err(DeployError::ArtifactNotFound),
        Some(p) => {
            let s = p.as_str();
            let n = s.unicode_len();
            proof {
                crate::paths::lemma_last_index_bounds(s@, '/');
            }
            let (parent, start): (String, usize) = match find_last(s, '/') {
                Some(i) => {
                    if i > 0 {
                        (String::from_str(s.substring_char(0, i)), i + 1)
                    } else {
                        proof {
                            reveal_strlit("/");
                        }
                        (String::from_str("/"), 1)
                    }
                },
                None => (String::new(), 0),
            };
            if start == n {
                return Err(DeployError::InvalidPath);
            }
            let name = s.substring_char(start, n);
            let stem = stem_of(name);
            Ok(Artifact { parent, stem })
        },
    }
}

/// The directory the server serves: the archive's stem inside the canonical
/// form of its parent directory.
pub fn doc_base(canonical_parent: &str, artifact: &Artifact) -> (r: String)
    ensures
        r@ == joined(canonical_parent@, artifact.stem@),
{
    join(canonical_parent, artifact.stem.as_str())
}

/// The descriptor that binds `context` (normalised) to `doc_base`, named after
/// the context path.
pub fn descriptor_for(context: &str, doc_base: &str) -> (r: Result<Descriptor, DeployError>)
    ensures
        r is Ok,
        r is Ok ==> {
            &&& r->Ok_0.file_name@ == descriptor_name(context@)
            &&& valid_utf8(r->Ok_0.content@)
            &&& decode_utf8(r->Ok_0.content@) == context_element(normalized(context@), doc_base@)
        },
{
    let path = normalize(context);
    match emit_context_element(path.as_str(), doc_base) {
        Ok(content) => Ok(Descriptor { file_name: descriptor_file_name(context), content }),
        Err(_) => Err(DeployError::IoError),
    }
}

} // verus!
