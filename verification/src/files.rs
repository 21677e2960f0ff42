//! Selecting the files to analyze out of an already-read directory tree.
//!
//! The surrounding program walks the file system and hands the library a
//! [`FileEntry`] tree of what it found (it fails on a path that does not
//! exist, as the original command does); the library decides which paths are
//! analyzed: plain files always, a directory's contents only in recursive
//! mode.

use vstd::prelude::*;

pub mod parsed_python_file;
pub mod python_file;

verus! {

/// A file-system entry the surrounding program found: a plain file, or a
/// directory with what it holds (its contents matter only in recursive
/// mode).
#[derive(Debug, PartialEq, Eq)]
pub enum FileEntry {
    File { path: String },
    Dir { path: String, entries: Vec<FileEntry> },
}

/// The mathematical shape of a [`FileEntry`].
pub enum FileEntryModel {
    File { path: Seq<char> },
    Dir { path: Seq<char>, entries: Seq<FileEntryModel> },
}

/// The model of one entry.
pub open spec fn entry_model(e: FileEntry) -> FileEntryModel
    decreases e,
{
    match e {
        FileEntry::File { path } => FileEntryModel::File { path: path@ },
        FileEntry::Dir { path, entries } => FileEntryModel::Dir {
            path: path@,
            entries: entry_model_list(entries@),
        },
    }
}

/// The models of a sequence of entries, element by element in order.
pub open spec fn entry_model_list(s: Seq<FileEntry>) -> Seq<FileEntryModel>
    decreases s,
{
    if s.len() == 0 {
        Seq::empty()
    } else {
        seq![entry_model(s[0])] + entry_model_list(s.drop_first())
    }
}

/// `entry_model_list` is pointwise `entry_model`.
pub proof fn lemma_entry_model_list(s: Seq<FileEntry>)
    ensures
        entry_model_list(s).len() == s.len(),
        forall|i: int| 0 <= i < s.len() ==> entry_model_list(s)[i] == entry_model(#[trigger] s[i]),
    decreases s.len(),
{
    if s.len() > 0 {
        lemma_entry_model_list(s.drop_first());
        assert forall|i: int| 0 <= i < s.len() implies entry_model_list(s)[i] == entry_model(
            #[trigger] s[i],
        ) by {
            if i > 0 {
                assert(s.drop_first()[i - 1] == s[i]);
            }
        }
    }
}

impl View for FileEntry {
    type V = FileEntryModel;

    open spec fn view(&self) -> FileEntryModel {
        entry_model(*self)
    }
}

impl DeepView for FileEntry {
    type V = FileEntryModel;

    open spec fn deep_view(&self) -> FileEntryModel {
        self@
    }
}

/// The models of a sequence of paths.
pub open spec fn path_models(v: Seq<String>) -> Seq<Seq<char>> {
    Seq::new(v.len(), |i: int| v[i]@)
}

/// The paths one entry contributes: a file contributes itself; a directory
/// contributes its contents in recursive mode and nothing otherwise.
pub open spec fn entry_files(e: FileEntryModel, recursive: bool) -> Seq<Seq<char>>
    decreases e,
{
    match e {
        FileEntryModel::File { path } => seq![path],
        FileEntryModel::Dir { path, entries } => if recursive {
            entries_files(entries, recursive)
        } else {
            Seq::empty()
        },
    }
}

/// The paths a sequence of entries contributes, in order.
pub open spec fn entries_files(es: Seq<FileEntryModel>, recursive: bool) -> Seq<Seq<char>>
    decreases es,
{
    if es.len() == 0 {
        Seq::empty()
    } else {
        entries_files(es.drop_last(), recursive) + entry_files(es.last(), recursive)
    }
}

/// Flatten the provided entries into the list of file paths to analyze.
pub fn get_files_list(provided: &Vec<FileEntry>, recursive: bool) -> (r: Vec<String>)
    ensures
        path_models(r@) == entries_files(entry_model_list(provided@), recursive),
    decreases provided,
{
    let ghost ems = entry_model_list(provided@);
    proof {
        lemma_entry_model_list(provided@);
        assert(path_models(Seq::empty()) =~= entries_files(ems.subrange(0, 0), recursive));
    }
    let mut out: Vec<String> = Vec::new();
    for k in 0..provided.len()
        invariant
            ems == entry_model_list(provided@),
            ems.len() == provided@.len(),
            forall|i: int|
                0 <= i < provided@.len() ==> ems[i] == entry_model(#[trigger] provided@[i]),
            path_models(out@) == entries_files(ems.subrange(0, k as int), recursive),
    {
        let ghost prefix = ems.subrange(0, k as int);
        proof {
            assert(decreases_to!(*provided => provided@));
            assert(decreases_to!(provided@ => provided@[k as int]));
        }
        match &provided[k] {
            FileEntry::File { path } => {
                out.push(path.clone());
                proof {
                    assert(entry_files(ems[k as int], recursive) =~= seq![path@]);
                }
            },
            FileEntry::Dir { path, entries } => {
                if recursive {
                    proof {
                        assert(decreases_to!(provided@[k as int] => provided@[k as
                            int]->Dir_entries));
                        assert(provided@[k as int]->Dir_entries == *entries);
                        assert(decreases_to!(*provided => *entries));
                    }
                    let mut sub = get_files_list(entries, recursive);
                    let ghost mid = out@;
                    out.append(&mut sub);
                    proof {
                        assert(ems[k as int] == FileEntryModel::Dir {
                            path: path@,
                            entries: entry_model_list(entries@),
                        });
                        assert(path_models(out@) =~= path_models(mid) + entries_files(
                            entry_model_list(entries@),
                            recursive,
                        ));
                    }
                } else {
                    proof {
                        assert(ems[k as int] is Dir);
                        assert(entry_files(ems[k as int], recursive) =~= Seq::<Seq<char>>::empty());
                    }
                }
            },
        }
        proof {
            assert(ems.subrange(0, k + 1 as int).drop_last() =~= prefix);
            assert(ems.subrange(0, k + 1 as int).last() == ems[k as int]);
            assert(path_models(out@) =~= entries_files(prefix, recursive) + entry_files(
                ems[k as int],
                recursive,
            ));
        }
    }
    proof {
        assert(ems.subrange(0, ems.len() as int) =~= ems);
    }
    out
}

} // verus!
