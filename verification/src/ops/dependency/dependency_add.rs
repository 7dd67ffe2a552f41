//! `dependency add`: records that files depend on other files.
//!
//! Callers give each source file with its dependencies and each dependency
//! with its tags; the engine takes the same information flattened into
//! parallel arrays: the source paths, then every dependency path in order
//! with, per source, how many of them belong to it, then every tag in order
//! with, per dependency, how many of them belong to it.
use vstd::prelude::*;
use crate::error::{LoreError, Result};
use crate::events::{check_stream, first_of_kind, is_stream_failure, find_kind, EventKind, EventStream, LoreEvent};
use crate::global::{flag, flag_of};
use crate::paths::{resolved, resolve_path};
use crate::text::string_views;

verus! {

/// One dependency to add, with the tags of the edge.
#[derive(Debug, Clone)]
pub struct DependencyAddEntry {
    pub dependency: String,
    pub tags: Vec<String>,
}

/// A source file with the dependencies to add to it.
#[derive(Debug, Clone)]
pub struct DependencyAddSource {
    pub path: String,
    pub dependencies: Vec<DependencyAddEntry>,
}

/// Arguments of a dependency addition.
#[derive(Debug, Clone)]
pub struct DependencyAddArgs {
    pub sources: Vec<DependencyAddSource>,
    /// Skip cycle detection.
    pub force: bool,
}

/// The engine's arguments of a dependency addition, as parallel arrays.
#[derive(Debug)]
pub struct LoreFileDependencyAddArgs {
    pub paths: Vec<String>,
    pub dependencies: Vec<String>,
    pub tags: Vec<String>,
    pub dep_counts: Vec<u32>,
    pub tag_counts: Vec<u32>,
    pub force: u8,
}

/// The result of a dependency addition.
#[derive(Debug, Clone)]
pub struct DependencyAddResult {
    /// The number of dependency edges added.
    pub added_count: u64,
}

/// The resolved paths of the dependencies in `es`, in order.
pub open spec fn entry_paths(root: Seq<char>, es: Seq<DependencyAddEntry>) -> Seq<Seq<char>>
    decreases es.len(),
{
    if es.len() == 0 {
        Seq::empty()
    } else {
        entry_paths(root, es.drop_last()).push(resolved(root, es.last().dependency@))
    }
}

/// How many tags each dependency in `es` has, in order.
pub open spec fn entry_tag_counts(es: Seq<DependencyAddEntry>) -> Seq<u32>
    decreases es.len(),
{
    if es.len() == 0 {
        Seq::empty()
    } else {
        entry_tag_counts(es.drop_last()).push(es.last().tags@.len() as u32)
    }
}

/// The tags of the dependencies in `es`, one after the other.
pub open spec fn entry_tags(es: Seq<DependencyAddEntry>) -> Seq<String>
    decreases es.len(),
{
    if es.len() == 0 {
        Seq::empty()
    } else {
        entry_tags(es.drop_last()) + es.last().tags@
    }
}

/// The resolved paths of the sources in `ss`, in order.
pub open spec fn source_paths(root: Seq<char>, ss: Seq<DependencyAddSource>) -> Seq<Seq<char>>
    decreases ss.len(),
{
    if ss.len() == 0 {
        Seq::empty()
    } else {
        source_paths(root, ss.drop_last()).push(resolved(root, ss.last().path@))
    }
}

/// How many dependencies each source in `ss` has, in order.
pub open spec fn source_dep_counts(ss: Seq<DependencyAddSource>) -> Seq<u32>
    decreases ss.len(),
{
    if ss.len() == 0 {
        Seq::empty()
    } else {
        source_dep_counts(ss.drop_last()).push(ss.last().dependencies@.len() as u32)
    }
}

/// The resolved dependency paths of all sources, one source after the other.
pub open spec fn all_entry_paths(root: Seq<char>, ss: Seq<DependencyAddSource>) -> Seq<Seq<char>>
    decreases ss.len(),
{
    if ss.len() == 0 {
        Seq::empty()
    } else {
        all_entry_paths(root, ss.drop_last()) + entry_paths(root, ss.last().dependencies@)
    }
}

/// The tag counts of all dependencies of all sources, in order.
pub open spec fn all_tag_counts(ss: Seq<DependencyAddSource>) -> Seq<u32>
    decreases ss.len(),
{
    if ss.len() == 0 {
        Seq::empty()
    } else {
        all_tag_counts(ss.drop_last()) + entry_tag_counts(ss.last().dependencies@)
    }
}

/// All tags of all dependencies of all sources, in order.
pub open spec fn all_tags(ss: Seq<DependencyAddSource>) -> Seq<String>
    decreases ss.len(),
{
    if ss.len() == 0 {
        Seq::empty()
    } else {
        all_tags(ss.drop_last()) + entry_tags(ss.last().dependencies@)
    }
}

impl DependencyAddArgs {
    /// The engine's arguments: the sources and their dependencies flattened
    /// into parallel arrays, every path resolved against `repo_root`.
    pub fn into_lore(self, repo_root: &str) -> (r: LoreFileDependencyAddArgs)
        ensures
            string_views(r.paths@) == source_paths(repo_root@, self.sources@),
            string_views(r.dependencies@) == all_entry_paths(repo_root@, self.sources@),
            r.tags@ == all_tags(self.sources@),
            r.dep_counts@ == source_dep_counts(self.sources@),
            r.tag_counts@ == all_tag_counts(self.sources@),
            r.force == flag(self.force),
    {
        let ghost root = repo_root@;
        let ghost ss = self.sources@;
        let mut paths: Vec<String> = Vec::new();
        let mut dependencies: Vec<String> = Vec::new();
        let mut tags: Vec<String> = Vec::new();
        let mut dep_counts: Vec<u32> = Vec::new();
        let mut tag_counts: Vec<u32> = Vec::new();
        let mut i: usize = 0;
        while i < self.sources.len()
            invariant
                i <= self.sources.len(),
                ss == self.sources@,
                root == repo_root@,
                string_views(paths@) == source_paths(root, ss.take(i as int)),
                string_views(dependencies@) == all_entry_paths(root, ss.take(i as int)),
                tags@ == all_tags(ss.take(i as int)),
                dep_counts@ == source_dep_counts(ss.take(i as int)),
                tag_counts@ == all_tag_counts(ss.take(i as int)),
            decreases self.sources.len() - i,
        {
            let source = &self.sources[i];
            let ghost es = source.dependencies@;
            let ghost deps0 = string_views(dependencies@);
            let ghost tags0 = tags@;
            let ghost tag_counts0 = tag_counts@;
            proof {
                assert(ss.take(i + 1).drop_last() =~= ss.take(i as int));
                assert(ss.take(i + 1).last() == ss[i as int]);
            }
            let p = resolve_path(repo_root, source.path.as_str());
            proof {
                assert(string_views(paths@.push(p)) =~= string_views(paths@).push(p@));
            }
            paths.push(p);
            #[verifier::truncate]
            let n = source.dependencies.len() as u32;
            dep_counts.push(n);
            let mut j: usize = 0;
            while j < source.dependencies.len()
                invariant
                    j <= es.len(),
                    es == source.dependencies@,
                    root == repo_root@,
                    string_views(dependencies@) == deps0 + entry_paths(root, es.take(j as int)),
                    tags@ == tags0 + entry_tags(es.take(j as int)),
                    tag_counts@ == tag_counts0 + entry_tag_counts(es.take(j as int)),
                decreases es.len() - j,
            {
                let entry = &source.dependencies[j];
                proof {
                    assert(es.take(j + 1).drop_last() =~= es.take(j as int));
                    assert(es.take(j + 1).last() == es[j as int]);
                }
                let d = resolve_path(repo_root, entry.dependency.as_str());
                proof {
                    assert(string_views(dependencies@.push(d)) =~= string_views(dependencies@).push(d@));
                    assert(deps0 + entry_paths(root, es.take(j + 1)) =~= (deps0 + entry_paths(root, es.take(j as int))).push(d@));
                }
                dependencies.push(d);
                #[verifier::truncate]
                let m = entry.tags.len() as u32;
                proof {
                    assert(tag_counts0 + entry_tag_counts(es.take(j + 1)) =~= (tag_counts0 + entry_tag_counts(es.take(j as int))).push(m));
                }
                tag_counts.push(m);
                let ghost tags1 = tags@;
                let mut k: usize = 0;
                while k < entry.tags.len()
                    invariant
                        k <= entry.tags.len(),
                        tags@ == tags1 + entry.tags@.take(k as int),
                    decreases entry.tags.len() - k,
                {
                    proof {
                        assert(entry.tags@.take(k + 1) =~= entry.tags@.take(k as int).push(entry.tags@[k as int]));
                    }
                    tags.push(entry.tags[k].clone());
                    k += 1;
                }
                proof {
                    assert(entry.tags@.take(k as int) =~= entry.tags@);
                    assert(tags0 + entry_tags(es.take(j + 1)) =~= tags0 + entry_tags(es.take(j as int)) + entry.tags@);
                }
                j += 1;
            }
            proof {
                assert(es.take(j as int) =~= es);
                assert(all_entry_paths(root, ss.take(i + 1)) =~= deps0 + entry_paths(root, es));
                assert(all_tags(ss.take(i + 1)) =~= tags0 + entry_tags(es));
                assert(all_tag_counts(ss.take(i + 1)) =~= tag_counts0 + entry_tag_counts(es));
            }
            i += 1;
        }
        proof {
            assert(ss.take(i as int) =~= ss);
        }
        LoreFileDependencyAddArgs {
            paths,
            dependencies,
            tags,
            dep_counts,
            tag_counts,
            force: flag_of(self.force),
        }
    }
}

/// The result a dependency addition reports: the count of its first
/// `FileDependencyAddEnd` event, or a parse error when it reported none.
pub open spec fn dependency_add_reported(evs: Seq<LoreEvent>, r: Result<DependencyAddResult>) -> bool {
    match first_of_kind(evs, EventKind::FileDependencyAddEnd) {
        Some(i) => evs[i] matches LoreEvent::FileDependencyAddEnd(d) && r matches Ok(res)
            && res.added_count == d.count,
        None => r matches Err(LoreError::Parse(m))
            && m@ == "dependency_add succeeded but no FileDependencyAddEnd event emitted"@,
    }
}

/// The result of a dependency addition, read off its event stream.
pub fn dependency_add_from_events(stream: &EventStream, status: &str) -> (r: Result<DependencyAddResult>)
    ensures
        !stream.ok ==> is_stream_failure(r, *stream, "dependency_add"@, status@),
        stream.ok ==> dependency_add_reported(stream.events@, r),
{
    if let Err(e) = check_stream(stream, "dependency_add", status) {
        return Err(e);
    }
    if let Some(i) = find_kind(&stream.events, EventKind::FileDependencyAddEnd) {
        if let LoreEvent::FileDependencyAddEnd(d) = &stream.events[i] {
            return Ok(DependencyAddResult { added_count: d.count });
        }
    }
    Err(LoreError::Parse(String::from_str("dependency_add succeeded but no FileDependencyAddEnd event emitted")))
}

} // verus!
