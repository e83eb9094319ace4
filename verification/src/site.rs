//! The site orchestrator: registers the theme and content trees into one
//! registry, resolves each content page to its mirrored output path, and
//! renders it against the shared context. The surrounding program walks the
//! filesystem and writes files; every naming, registration and rendering
//! decision is made here.
use vstd::prelude::*;

use crate::config::Config;
use crate::errors::BuildError;
use crate::paths::{
    has_hbs_extension, has_template_extension, html_suffix, join_under, joined, output_rel_path,
    path_to_template_name, rel_to, strip_base, template_identifier,
};
use crate::registry::{engine_set_strict, hbs_compiles, no_templates, Registry};

verus! {

/// The registry contents after registering `files` found under `root`, in
/// order, over `m`: nothing where some path cannot be named; later entries
/// overwrite earlier ones.
pub open spec fn register_fold(
    m: Map<Seq<char>, Seq<char>>,
    root: Seq<char>,
    sep: char,
    files: Seq<(String, String)>,
) -> Option<Map<Seq<char>, Seq<char>>>
    decreases files.len(),
{
    if files.len() == 0 {
        Option::Some(m)
    } else {
        match template_identifier(files[0].0@, root, sep) {
            Option::None => Option::None,
            Option::Some(id) => register_fold(
                m.insert(id, files[0].1@),
                root,
                sep,
                files.drop_first(),
            ),
        }
    }
}

/// Whether one scanned file passes registration: its path can be named and
/// its source compiles.
pub open spec fn file_accepted(root: Seq<char>, sep: char, f: (String, String)) -> bool {
    template_identifier(f.0@, root, sep) is Some && hbs_compiles(f.1@)
}

/// How many files from the front of `files` registration accepts before the
/// first failure; the whole length where none fails.
pub open spec fn tree_ok_prefix(root: Seq<char>, sep: char, files: Seq<(String, String)>) -> int
    decreases files.len(),
{
    if files.len() == 0 {
        0
    } else if file_accepted(root, sep, files[0]) {
        1 + tree_ok_prefix(root, sep, files.drop_first())
    } else {
        0
    }
}

/// Whether every file of one tree passes registration.
pub open spec fn tree_accepted(root: Seq<char>, sep: char, files: Seq<(String, String)>) -> bool {
    tree_ok_prefix(root, sep, files) == files.len()
}

/// Whether the first failing file of the tree failed at naming rather than
/// at compiling.
pub open spec fn tree_failed_at_naming(
    root: Seq<char>,
    sep: char,
    files: Seq<(String, String)>,
) -> bool {
    template_identifier(files[tree_ok_prefix(root, sep, files)].0@, root, sep) is None
}

/// The subject the first failure carries: the path itself where naming
/// failed, the derived identifier where compiling failed.
pub open spec fn tree_error_subject(
    root: Seq<char>,
    sep: char,
    files: Seq<(String, String)>,
) -> Seq<char> {
    let k = tree_ok_prefix(root, sep, files);
    if template_identifier(files[k].0@, root, sep) is None {
        files[k].0@
    } else {
        template_identifier(files[k].0@, root, sep).unwrap()
    }
}

/// The count of accepted files stands exactly at the first failure: where
/// every file before `i` passes and file `i` (if any) fails, the count is
/// `i`.
proof fn lemma_prefix_is_first_failure(
    root: Seq<char>,
    sep: char,
    files: Seq<(String, String)>,
    i: int,
)
    requires
        0 <= i <= files.len(),
        forall|j: int| 0 <= j < i ==> file_accepted(root, sep, #[trigger] files[j]),
        i < files.len() ==> !file_accepted(root, sep, files[i]),
    ensures
        tree_ok_prefix(root, sep, files) == i,
    decreases files.len(),
{
    if files.len() == 0 {
    } else if i == 0 {
    } else {
        let rest = files.drop_first();
        assert(forall|j: int| 0 <= j < i - 1 ==> file_accepted(root, sep, #[trigger] rest[j]))
            by {
            assert(forall|j: int| 0 <= j < i - 1 ==> #[trigger] rest[j] == files[j + 1]);
        }
        assert(i - 1 < rest.len() ==> !file_accepted(root, sep, rest[i - 1])) by {
            if i - 1 < rest.len() {
                assert(rest[i - 1] == files[i]);
            }
        }
        lemma_prefix_is_first_failure(root, sep, rest, i - 1);
    }
}

/// Folding one more file registers it over the fold of the files before it.
proof fn lemma_fold_snoc(
    m: Map<Seq<char>, Seq<char>>,
    root: Seq<char>,
    sep: char,
    files: Seq<(String, String)>,
    x: (String, String),
)
    ensures
        register_fold(m, root, sep, files.push(x)) == (match register_fold(m, root, sep, files) {
            Option::None => Option::None::<Map<Seq<char>, Seq<char>>>,
            Option::Some(m2) => (match template_identifier(x.0@, root, sep) {
                Option::None => Option::None::<Map<Seq<char>, Seq<char>>>,
                Option::Some(id) => Option::Some(m2.insert(id, x.1@)),
            }),
        }),
    decreases files.len(),
{
    assert(files.push(x).len() == files.len() + 1);
    if files.len() == 0 {
        assert(files.push(x)[0] == x);
        assert(files.push(x).drop_first() =~= files);
        assert(register_fold(m, root, sep, files) == Option::Some(m));
        match template_identifier(x.0@, root, sep) {
            Option::None => {},
            Option::Some(id) => {
                assert(register_fold(m.insert(id, x.1@), root, sep, files.push(x).drop_first())
                    == Option::Some(m.insert(id, x.1@)));
            },
        }
    } else {
        assert(files.push(x)[0] == files[0]);
        assert(files.push(x).drop_first() =~= files.drop_first().push(x));
        match template_identifier(files[0].0@, root, sep) {
            Option::None => {
                assert(register_fold(m, root, sep, files.push(x)) is None);
                assert(register_fold(m, root, sep, files) is None);
            },
            Option::Some(id) => {
                lemma_fold_snoc(m.insert(id, files[0].1@), root, sep, files.drop_first(), x);
                assert(register_fold(m, root, sep, files.push(x)) == register_fold(
                    m.insert(id, files[0].1@),
                    root,
                    sep,
                    files.drop_first().push(x),
                ));
                assert(register_fold(m, root, sep, files) == register_fold(
                    m.insert(id, files[0].1@),
                    root,
                    sep,
                    files.drop_first(),
                ));
            },
        }
    }
}

/// The registry contents after a full reload: the theme tree first, where
/// there is one, then the content tree over it.
pub open spec fn reload_outcome(
    theme_dir: Option<String>,
    theme_files: Seq<(String, String)>,
    content_dir: Seq<char>,
    content_files: Seq<(String, String)>,
    sep: char,
) -> Option<Map<Seq<char>, Seq<char>>> {
    let after_theme = match theme_dir {
        Option::Some(td) => register_fold(no_templates(), td@, sep, theme_files),
        Option::None => Option::Some(no_templates()),
    };
    match after_theme {
        Option::None => Option::None,
        Option::Some(m) => register_fold(m, content_dir, sep, content_files),
    }
}

/// Whether a full reload succeeds: every file of the theme tree, where
/// there is one, and of the content tree passes registration.
pub open spec fn reload_accepted(
    theme_dir: Option<String>,
    theme_files: Seq<(String, String)>,
    content_dir: Seq<char>,
    content_files: Seq<(String, String)>,
    sep: char,
) -> bool {
    let theme_ok = match theme_dir {
        Option::Some(td) => tree_accepted(td@, sep, theme_files),
        Option::None => true,
    };
    theme_ok && tree_accepted(content_dir, sep, content_files)
}

/// What the registry holds after a reload aborts: everything registered
/// before the first failing file, the theme tree first.
pub open spec fn reload_partial(
    theme_dir: Option<String>,
    theme_files: Seq<(String, String)>,
    content_dir: Seq<char>,
    content_files: Seq<(String, String)>,
    sep: char,
) -> Map<Seq<char>, Seq<char>> {
    match theme_dir {
        Option::Some(td) => {
            if !tree_accepted(td@, sep, theme_files) {
                register_fold(
                    no_templates(),
                    td@,
                    sep,
                    theme_files.take(tree_ok_prefix(td@, sep, theme_files)),
                ).unwrap()
            } else {
                register_fold(
                    register_fold(no_templates(), td@, sep, theme_files).unwrap(),
                    content_dir,
                    sep,
                    content_files.take(tree_ok_prefix(content_dir, sep, content_files)),
                ).unwrap()
            }
        },
        Option::None => register_fold(
            no_templates(),
            content_dir,
            sep,
            content_files.take(tree_ok_prefix(content_dir, sep, content_files)),
        ).unwrap(),
    }
}

/// Whether a failed reload failed at naming a path rather than at compiling
/// a source.
pub open spec fn reload_failed_at_naming(
    theme_dir: Option<String>,
    theme_files: Seq<(String, String)>,
    content_dir: Seq<char>,
    content_files: Seq<(String, String)>,
    sep: char,
) -> bool {
    match theme_dir {
        Option::Some(td) => {
            if !tree_accepted(td@, sep, theme_files) {
                tree_failed_at_naming(td@, sep, theme_files)
            } else {
                tree_failed_at_naming(content_dir, sep, content_files)
            }
        },
        Option::None => tree_failed_at_naming(content_dir, sep, content_files),
    }
}

/// The subject a failed reload names: the first failing file of the theme
/// tree, or, with the theme accepted, of the content tree.
pub open spec fn reload_error_subject(
    theme_dir: Option<String>,
    theme_files: Seq<(String, String)>,
    content_dir: Seq<char>,
    content_files: Seq<(String, String)>,
    sep: char,
) -> Seq<char> {
    match theme_dir {
        Option::Some(td) => {
            if !tree_accepted(td@, sep, theme_files) {
                tree_error_subject(td@, sep, theme_files)
            } else {
                tree_error_subject(content_dir, sep, content_files)
            }
        },
        Option::None => tree_error_subject(content_dir, sep, content_files),
    }
}

/// The output path for a content page found at `path`: the path relative to
/// the content root, its template extension giving way to the output suffix,
/// under the output root. Nothing for a file that is no content page.
pub open spec fn page_output(
    path: Seq<char>,
    content_dir: Seq<char>,
    out_dir: Seq<char>,
    sep: char,
) -> Option<Seq<char>> {
    if !has_hbs_extension(path, sep) {
        Option::None
    } else {
        match rel_to(path, content_dir, sep) {
            Option::None => Option::None,
            Option::Some(rel) => {
                if has_hbs_extension(rel, sep) {
                    Option::Some(
                        joined(out_dir, rel.subrange(0, rel.len() - 4) + html_suffix(), sep),
                    )
                } else {
                    Option::None
                }
            },
        }
    }
}

/// Registers every file of one tree, first to last: each path is named
/// relative to the root's parent and its source compiled under that name.
/// The pass succeeds exactly when every file passes; the first failure — a
/// path that cannot be named, or a source that does not compile — aborts it,
/// and the files before the failure stay registered.
fn register_tree(
    registry: &mut Registry,
    root: &str,
    files: &Vec<(String, String)>,
    sep: char,
) -> (res: Result<usize, BuildError>)
    ensures
        res is Ok <==> tree_accepted(root@, sep, files@),
        res is Ok ==> Option::Some(final(registry).templates()) == register_fold(
            old(registry).templates(),
            root@,
            sep,
            files@,
        ),
        res is Ok ==> res->Ok_0 as int == files@.len() as int,
        res is Err ==> Option::Some(final(registry).templates()) == register_fold(
            old(registry).templates(),
            root@,
            sep,
            files@.take(tree_ok_prefix(root@, sep, files@)),
        ),
        res is Err ==> (res->Err_0 is InvalidPath <==> tree_failed_at_naming(root@, sep, files@)),
        res is Err ==> (res->Err_0 is InvalidPath || res->Err_0 is Compile),
        res is Err ==> res->Err_0.spec_subject() == tree_error_subject(root@, sep, files@),
        final(registry).strict() == old(registry).strict(),
{
    let ghost m0 = registry.templates();
    let n = files.len();
    let mut i: usize = 0;
    proof {
        assert(files@.take(0) =~= Seq::<(String, String)>::empty());
    }
    while i < n
        invariant
            i <= n,
            n == files@.len(),
            m0 == old(registry).templates(),
            Option::Some(registry.templates()) == register_fold(
                m0,
                root@,
                sep,
                files@.take(i as int),
            ),
            forall|j: int| 0 <= j < i ==> file_accepted(root@, sep, #[trigger] files@[j]),
            registry.strict() == old(registry).strict(),
        decreases n - i,
    {
        let ghost before = registry.templates();
        let name = match path_to_template_name(files[i].0.as_str(), root, sep) {
            Ok(name) => name,
            Err(e) => {
                proof {
                    lemma_prefix_is_first_failure(root@, sep, files@, i as int);
                }
                return Err(e);
            },
        };
        match registry.register(name.as_str(), files[i].1.as_str()) {
            Ok(()) => {},
            Err(e) => {
                proof {
                    lemma_prefix_is_first_failure(root@, sep, files@, i as int);
                }
                return Err(e);
            },
        }
        proof {
            assert(files@.take(i as int + 1) =~= files@.take(i as int).push(files@[i as int]));
            lemma_fold_snoc(m0, root@, sep, files@.take(i as int), files@[i as int]);
            assert(registry.templates() == before.insert(name@, files@[i as int].1@));
        }
        i = i + 1;
    }
    proof {
        lemma_prefix_is_first_failure(root@, sep, files@, n as int);
        assert(files@.take(n as int) =~= files@);
    }
    Ok(n)
}

/// One site build's moving parts: the registry, the shared render context,
/// and the resolved directories.
pub struct Site {
    registry: Registry,
    context: serde_json::Value,
    out_dir: String,
    content_dir: String,
    theme_dir: Option<String>,
    assets_dir: Option<String>,
    sep: char,
}

impl Site {
    /// The identifiers registered so far, each with its source text.
    pub closed spec fn templates(&self) -> Map<Seq<char>, Seq<char>> {
        self.registry.templates()
    }

    /// Whether unresolved context references are hard errors.
    pub closed spec fn strict(&self) -> bool {
        self.registry.strict()
    }

    /// The output root.
    pub closed spec fn spec_out_dir(&self) -> Seq<char> {
        self.out_dir@
    }

    /// The content root.
    pub closed spec fn spec_content_dir(&self) -> Seq<char> {
        self.content_dir@
    }

    /// The theme root, if the site has one.
    pub closed spec fn spec_theme_dir(&self) -> Option<String> {
        self.theme_dir
    }

    /// The assets root, if the site has one.
    pub closed spec fn spec_assets_dir(&self) -> Option<String> {
        self.assets_dir
    }

    /// The path separator the surrounding system uses.
    pub closed spec fn spec_sep(&self) -> char {
        self.sep
    }

    /// Builds a site around a prepared engine — the surrounding program
    /// installs the layout helper entry on it, an engine callback no
    /// verified signature can carry — a render context built once from the
    /// configuration, and the configured directories. The site starts with
    /// no templates registered, and with strict mode as the configuration
    /// has it. `sep` is the operating system's path separator.
    pub fn new(
        config: &Config,
        context: serde_json::Value,
        engine: handlebars::Handlebars<'static>,
        sep: char,
    ) -> (res: Site)
        ensures
            res.templates() == no_templates(),
            res.strict() == config.site.strict,
            res.spec_out_dir() == config.site.out_dir@,
            res.spec_content_dir() == config.site.content@,
            crate::config::opt_text(res.spec_theme_dir()) == crate::config::opt_text(
                config.site.theme,
            ),
            crate::config::opt_text(res.spec_assets_dir()) == crate::config::opt_text(
                config.site.assets,
            ),
            res.spec_sep() == sep,
    {
        let mut engine = engine;
        engine_set_strict(&mut engine, config.site.strict);
        let mut registry = Registry::from_engine(engine);
        registry.clear();
        Site {
            registry,
            context,
            out_dir: config.site.out_dir.clone(),
            content_dir: config.site.content.clone(),
            theme_dir: match &config.site.theme {
                Some(t) => Some(t.clone()),
                None => None,
            },
            assets_dir: match &config.site.assets {
                Some(a) => Some(a.clone()),
                None => None,
            },
            sep,
        }
    }

    /// Empties the registry and registers both trees anew: the theme's
    /// files, then the content's, later registrations overwriting earlier
    /// ones. The reload succeeds exactly when every file can be named and
    /// compiled; the first failure aborts it, naming the failing file, and
    /// what was registered before the failure remains. Returns how many
    /// templates each tree contributed.
    pub fn reload_templates(
        &mut self,
        theme_files: &Vec<(String, String)>,
        content_files: &Vec<(String, String)>,
    ) -> (res: Result<(usize, usize), BuildError>)
        ensures
            res is Ok <==> reload_accepted(
                old(self).spec_theme_dir(),
                theme_files@,
                old(self).spec_content_dir(),
                content_files@,
                old(self).spec_sep(),
            ),
            res is Err ==> final(self).templates() == reload_partial(
                old(self).spec_theme_dir(),
                theme_files@,
                old(self).spec_content_dir(),
                content_files@,
                old(self).spec_sep(),
            ),
            res is Err ==> res->Err_0.spec_subject() == reload_error_subject(
                old(self).spec_theme_dir(),
                theme_files@,
                old(self).spec_content_dir(),
                content_files@,
                old(self).spec_sep(),
            ),
            res is Err ==> (res->Err_0 is InvalidPath <==> reload_failed_at_naming(
                old(self).spec_theme_dir(),
                theme_files@,
                old(self).spec_content_dir(),
                content_files@,
                old(self).spec_sep(),
            )),
            res is Ok ==> Option::Some(final(self).templates()) == reload_outcome(
                old(self).spec_theme_dir(),
                theme_files@,
                old(self).spec_content_dir(),
                content_files@,
                old(self).spec_sep(),
            ),
            res matches Ok(counts) ==> counts.1 as int == content_files@.len() as int,
            res matches Ok(counts) ==> (old(self).spec_theme_dir() is Some ==> counts.0 as int
                == theme_files@.len() as int),
            res matches Ok(counts) ==> (old(self).spec_theme_dir() is None ==> counts.0 == 0usize),
            res is Err ==> (res->Err_0 is InvalidPath || res->Err_0 is Compile),
            final(self).strict() == old(self).strict(),
            final(self).spec_out_dir() == old(self).spec_out_dir(),
            final(self).spec_content_dir() == old(self).spec_content_dir(),
            final(self).spec_theme_dir() == old(self).spec_theme_dir(),
            final(self).spec_assets_dir() == old(self).spec_assets_dir(),
            final(self).spec_sep() == old(self).spec_sep(),
    {
        self.registry.clear();
        let theme_count: usize;
        match &self.theme_dir {
            Some(theme_root) => {
                match register_tree(&mut self.registry, theme_root.as_str(), theme_files, self.sep) {
                    Ok(count) => {
                        theme_count = count;
                    },
                    Err(e) => {
                        return Err(e);
                    },
                }
            },
            None => {
                theme_count = 0;
            },
        }
        match register_tree(&mut self.registry, self.content_dir.as_str(), content_files, self.sep) {
            Ok(content_count) => Ok((theme_count, content_count)),
            Err(e) => Err(e),
        }
    }

    /// Renders the template registered under `name` against the shared
    /// context. An unregistered identifier is always a hard error naming it;
    /// a missing transcluded layout surfaces as `TemplateNotFound` naming the
    /// layout, a strict-mode miss as `UnknownField`, anything else the
    /// engine refuses as `Render`.
    pub fn render_page(&self, name: &str) -> (res: Result<String, BuildError>)
        ensures
            !self.templates().contains_key(name@) ==> res is Err && res->Err_0 is TemplateNotFound
                && res->Err_0.spec_subject() == name@,
            res is Err ==> (res->Err_0 is TemplateNotFound || res->Err_0 is UnknownField
                || res->Err_0 is Render),
            res is Err ==> (!(res->Err_0 is TemplateNotFound) ==> self.templates().contains_key(
                name@,
            ) && res->Err_0.spec_subject() == name@),
            res is Ok ==> self.templates().contains_key(name@),
    {
        self.registry.render(name, &self.context)
    }

    /// Handles one path found under the content root: a file without the
    /// template extension is no page and yields nothing; a file outside the
    /// content root cannot be placed and is rejected; a page is rendered
    /// under its derived identifier, and comes back with the mirrored output
    /// path its text belongs at.
    pub fn render_one(&self, path: &str) -> (res: Result<Option<(String, String)>, BuildError>)
        ensures
            res is Ok ==> (res->Ok_0 is Some <==> page_output(
                path@,
                self.spec_content_dir(),
                self.spec_out_dir(),
                self.spec_sep(),
            ) is Some),
            res is Ok ==> (res->Ok_0 matches Some(page) ==> Option::Some(page.0@) == page_output(
                path@,
                self.spec_content_dir(),
                self.spec_out_dir(),
                self.spec_sep(),
            )),
            res is Ok && res->Ok_0 is Some ==> template_identifier(
                path@,
                self.spec_content_dir(),
                self.spec_sep(),
            ) is Some && self.templates().contains_key(
                template_identifier(path@, self.spec_content_dir(), self.spec_sep()).unwrap(),
            ),
            !has_hbs_extension(path@, self.spec_sep()) ==> res is Ok && res->Ok_0 is None,
            (res is Err && res->Err_0 is InvalidPath) <==> (has_hbs_extension(
                path@,
                self.spec_sep(),
            ) && rel_to(path@, self.spec_content_dir(), self.spec_sep()) is None),
            res is Err && res->Err_0 is InvalidPath ==> res->Err_0.spec_subject() == path@,
            template_identifier(path@, self.spec_content_dir(), self.spec_sep()) matches Some(id)
                ==> (page_output(
                path@,
                self.spec_content_dir(),
                self.spec_out_dir(),
                self.spec_sep(),
            ) is Some && !self.templates().contains_key(id) ==> res is Err
                && res->Err_0 is TemplateNotFound && res->Err_0.spec_subject() == id),
            res is Err && (res->Err_0 is Render || res->Err_0 is UnknownField)
                ==> template_identifier(path@, self.spec_content_dir(), self.spec_sep()) is Some
                && self.templates().contains_key(
                template_identifier(path@, self.spec_content_dir(), self.spec_sep()).unwrap(),
            ),
            res is Err ==> (res->Err_0 is InvalidPath || res->Err_0 is TemplateNotFound
                || res->Err_0 is UnknownField || res->Err_0 is Render),
    {
        if !has_template_extension(path, self.sep) {
            return Ok(None);
        }
        let rel = match strip_base(path, self.content_dir.as_str(), self.sep) {
            Some(rel) => rel,
            None => {
                return Err(BuildError::InvalidPath(path.to_owned()));
            },
        };
        proof {
            crate::paths::lemma_rel_to_parent(path@, self.content_dir@, self.sep);
        }
        let out_rel = match output_rel_path(rel.as_str(), self.sep) {
            Some(out_rel) => out_rel,
            None => {
                return Ok(None);
            },
        };
        let name = match path_to_template_name(path, self.content_dir.as_str(), self.sep) {
            Ok(name) => name,
            Err(e) => {
                return Err(e);
            },
        };
        let rendered = match self.render_page(name.as_str()) {
            Ok(text) => text,
            Err(e) => {
                return Err(e);
            },
        };
        let destination = join_under(self.out_dir.as_str(), out_rel.as_str(), self.sep);
        Ok(Some((destination, rendered)))
    }
}

} // verus!
