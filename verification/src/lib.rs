//! Code generation for a macro-based assembly-like contract language:
//! recursive macro-to-bytecode expansion, constant push-encoding, and
//! deployment-bytecode assembly, with the artifact record they populate.

use vstd::prelude::*;

pub mod artifact;
pub mod assemble;
pub mod ast;
pub mod error;
pub mod expand;
pub mod hexstr;

use crate::artifact::{Abi, Artifact, ArtifactV, abi_of};
use crate::assemble::{args_hex_of, assemble_deployment, deploy_bytecode, encode_constructor_args};
use crate::ast::{Contract, ContractV, MacroDefinition};
use crate::error::{CodegenError, CodegenErrorKind};
use crate::expand::{contract_wf, expand_macro, expand_macro_exec, flatten_bytes, join_bytes};
use crate::hexstr::is_hex_string;

verus! {

/// A code-generation session: the cached input tree and the accumulated
/// output artifact, with the intermediate bytecode stores.
#[derive(Debug)]
pub struct Codegen {
    /// The input syntax tree, if one has been cached on the session.
    pub ast: Option<Contract>,
    /// The accumulated output artifact, created on first write.
    pub artifact: Option<Artifact>,
    /// The intermediate main bytecode store.
    pub main_bytecode: Option<String>,
    /// The intermediate constructor bytecode store.
    pub constructor_bytecode: Option<String>,
}

/// Model of a session.
#[verifier::ext_equal]
pub struct CodegenV {
    /// The cached tree.
    pub ast: Option<ContractV>,
    /// The accumulated artifact.
    pub artifact: Option<ArtifactV>,
    /// The main bytecode store.
    pub main_bytecode: Option<Seq<char>>,
    /// The constructor bytecode store.
    pub constructor_bytecode: Option<Seq<char>>,
}

impl DeepView for Codegen {
    type V = CodegenV;

    open spec fn deep_view(&self) -> CodegenV {
        CodegenV {
            ast: self.ast.deep_view(),
            artifact: self.artifact.deep_view(),
            main_bytecode: self.main_bytecode.deep_view(),
            constructor_bytecode: self.constructor_bytecode.deep_view(),
        }
    }
}

/// The tree a call works on: the one passed in, or failing that the one
/// cached on the session.
pub open spec fn selected_tree(given: Option<ContractV>, own: Option<ContractV>) -> Option<
    ContractV,
> {
    if given is Some {
        given
    } else {
        own
    }
}

/// The artifact that assembling deployment bytecode stores and returns:
/// deployable bytecode per the bootstrap formula with the encoded argument
/// suffix, the runtime code unchanged, and the interface description the
/// session already held, if any.
pub open spec fn churn_artifact(
    s: CodegenV,
    args: Seq<ethers::abi::Token>,
    main: Seq<char>,
    ctor: Seq<char>,
) -> ArtifactV {
    ArtifactV {
        bytecode: deploy_bytecode(main, ctor, args_hex_of(args)),
        runtime: main,
        abi: (match s.artifact {
            Some(a) => a.abi,
            None => None,
        }),
    }
}

/// The session state after assembling deployment bytecode: only the
/// artifact changes.
pub open spec fn churn_effect(
    s: CodegenV,
    args: Seq<ethers::abi::Token>,
    main: Seq<char>,
    ctor: Seq<char>,
) -> CodegenV {
    CodegenV { artifact: Some(churn_artifact(s, args, main, ctor)), ..s }
}

/// The session state after interface generation: the artifact — created if
/// absent — carries the tree's interface description, its bytecode fields
/// untouched.
pub open spec fn abigen_effect(s: CodegenV, tree: ContractV) -> CodegenV {
    CodegenV {
        artifact: Some(
            ArtifactV {
                bytecode: (match s.artifact {
                    Some(a) => a.bytecode,
                    None => Seq::<char>::empty(),
                }),
                runtime: (match s.artifact {
                    Some(a) => a.runtime,
                    None => Seq::<char>::empty(),
                }),
                abi: Some(abi_of(tree)),
            },
        ),
        ..s
    }
}

/// Populating the artifact is order-independent per field: assembling the
/// deployment bytecode and merging the interface description reach the same
/// session state in either order.
pub proof fn lemma_population_order_independent(
    s: CodegenV,
    args: Seq<ethers::abi::Token>,
    main: Seq<char>,
    ctor: Seq<char>,
    tree: ContractV,
)
    ensures
        abigen_effect(churn_effect(s, args, main, ctor), tree) == churn_effect(
            abigen_effect(s, tree),
            args,
            main,
            ctor,
        ),
{
    assert(abigen_effect(churn_effect(s, args, main, ctor), tree) =~~= churn_effect(
        abigen_effect(s, tree),
        args,
        main,
        ctor,
    ));
}

/// What generating constructor bytecode returns for a given tree: the
/// flattened expansion of the macro named `CONSTRUCTOR`, or the error that
/// stops it.
pub open spec fn construct_spec(tree: Option<ContractV>) -> Result<Seq<char>, CodegenErrorKind> {
    match tree {
        None => Err(CodegenErrorKind::MissingAst),
        Some(cv) => match crate::ast::find_macro(cv.macros, "CONSTRUCTOR"@) {
            None => Err(CodegenErrorKind::MissingConstructor),
            Some(m) => match expand_macro(cv, m) {
                Ok(bs) => Ok(flatten_bytes(bs)),
                Err(k) => Err(k),
            },
        },
    }
}

impl Default for Codegen {
    /// Same as a fresh session: every field unset.
    fn default() -> (r: Codegen)
        ensures
            r.deep_view() == (CodegenV {
                ast: None,
                artifact: None,
                main_bytecode: None,
                constructor_bytecode: None,
            }),
    {
        Codegen::new()
    }
}

impl Codegen {
    /// A fresh session: no tree, no artifact, no intermediate bytecode.
    pub fn new() -> (r: Codegen)
        ensures
            r.deep_view() == (CodegenV {
                ast: None,
                artifact: None,
                main_bytecode: None,
                constructor_bytecode: None,
            }),
    {
        Codegen { ast: None, artifact: None, main_bytecode: None, constructor_bytecode: None }
    }

    /// Generates main bytecode from a tree.  Whole-program generation is an
    /// explicit placeholder: with a tree available the result is the empty
    /// bytecode string, cached as the main bytecode store if that was still
    /// unset; without one the call fails with `MissingAst`.
    pub fn roll(&mut self, ast: Option<Contract>) -> (r: Result<String, CodegenError>)
        ensures
            (match selected_tree(ast.deep_view(), old(self).deep_view().ast) {
                Some(_) => r matches Ok(s) && s@ == Seq::<char>::empty(),
                None => r matches Err(e) && e.kind == CodegenErrorKind::MissingAst,
            }),
            final(self).deep_view() == (CodegenV {
                main_bytecode: (if selected_tree(ast.deep_view(), old(self).deep_view().ast)
                    is Some && old(self).deep_view().main_bytecode is None {
                Some(Seq::<char>::empty())
            } else {
                old(self).deep_view().main_bytecode
            }),
                ..old(self).deep_view()
            }),
    {
        let bytecode = String::new();
        let available = match &ast {
            Some(_) => true,
            None => self.ast.is_some(),
        };
        if !available {
            proof {
                assert(self.deep_view() =~~= old(self).deep_view());
            }
            return Err(CodegenError { kind: CodegenErrorKind::MissingAst });
        }
        if self.main_bytecode.is_none() {
            self.main_bytecode = Some(String::new());
        }
        proof {
            assert(self.deep_view() =~~= (CodegenV {
                main_bytecode: (if selected_tree(ast.deep_view(), old(self).deep_view().ast)
                    is Some && old(self).deep_view().main_bytecode is None {
                Some(Seq::<char>::empty())
            } else {
                old(self).deep_view().main_bytecode
            }),
                ..old(self).deep_view()
            }));
        }
        Ok(bytecode)
    }

    /// Gracefully gets a tree to work on: the one passed in, else a copy of
    /// the cached one, else `MissingAst`.
    pub fn graceful_ast_grab(&self, ast: Option<Contract>) -> (r: Result<Contract, CodegenError>)
        ensures
            (match (selected_tree(ast.deep_view(), self.deep_view().ast), r) {
                (Some(cv), Ok(c)) => c.deep_view() == cv,
                (None, Err(e)) => e.kind == CodegenErrorKind::MissingAst,
                _ => false,
            }),
    {
        match ast {
            Some(a) => Ok(a),
            None => match &self.ast {
                Some(a) => Ok(a.duplicate()),
                None => Err(CodegenError { kind: CodegenErrorKind::MissingAst }),
            },
        }
    }

    /// Generates constructor bytecode from a tree: the expansion of the
    /// macro named `CONSTRUCTOR`, flattened to one hex string.
    pub fn construct(&mut self, ast: Option<Contract>) -> (r: Result<String, CodegenError>)
        requires
            (match selected_tree(ast.deep_view(), old(self).deep_view().ast) {
                Some(cv) => contract_wf(cv),
                None => true,
            }),
        ensures
            (match (construct_spec(selected_tree(ast.deep_view(), old(self).deep_view().ast)), r) {
                (Ok(sv), Ok(s)) => s@ == sv,
                (Err(k), Err(e)) => e.kind == k,
                _ => false,
            }),
            final(self).deep_view() == old(self).deep_view(),
    {
        let contract: &Contract = match &ast {
            Some(a) => a,
            None => match &self.ast {
                Some(a) => a,
                None => {
                    return Err(CodegenError { kind: CodegenErrorKind::MissingAst });
                },
            },
        };
        let c_macro: &MacroDefinition = match contract.find_macro_by_name("CONSTRUCTOR") {
            Some(m) => m,
            None => {
                return Err(CodegenError { kind: CodegenErrorKind::MissingConstructor });
            },
        };
        let recursed = match expand_macro_exec(contract, c_macro) {
            Ok(v) => v,
            Err(e) => {
                return Err(e);
            },
        };
        Ok(join_bytes(&recursed))
    }

    /// Recursively expands a macro definition to byte units against a tree:
    /// the one passed in, else the cached one, else `MissingAst`.
    pub fn recurse_bytecode(&self, macro_def: MacroDefinition, ast: Option<Contract>) -> (r:
        Result<Vec<crate::ast::Byte>, CodegenError>)
        requires
            (match selected_tree(ast.deep_view(), self.deep_view().ast) {
                Some(cv) => contract_wf(cv),
                None => true,
            }),
        ensures
            (match selected_tree(ast.deep_view(), self.deep_view().ast) {
                None => r matches Err(e) && e.kind == CodegenErrorKind::MissingAst,
                Some(cv) => (match (r, expand_macro(cv, macro_def.deep_view())) {
                    (Ok(v), Ok(bs)) => v.deep_view() == bs,
                    (Err(e), Err(k)) => e.kind == k,
                    _ => false,
                }),
            }),
    {
        let contract: &Contract = match &ast {
            Some(a) => a,
            None => match &self.ast {
                Some(a) => a,
                None => {
                    return Err(CodegenError { kind: CodegenErrorKind::MissingAst });
                },
            },
        };
        expand_macro_exec(contract, &macro_def)
    }

    /// Assembles the deployment artifact from finished bytecode: constructor
    /// code, bootstrap, runtime code, then the encoded constructor
    /// arguments.  The result is stored as the session's artifact — created
    /// if absent, its interface description kept — and returned.
    pub fn churn(
        &mut self,
        args: Vec<ethers::abi::Token>,
        main_bytecode: &str,
        constructor_bytecode: &str,
    ) -> (r: Result<Artifact, CodegenError>)
        requires
            is_hex_string(main_bytecode@),
            is_hex_string(constructor_bytecode@),
            main_bytecode@.len() / 2 <= 0xffff,
            13 + constructor_bytecode@.len() / 2 <= 0xffff,
        ensures
            r is Ok,
            r.unwrap().deep_view() == churn_artifact(
                old(self).deep_view(),
                args@,
                main_bytecode@,
                constructor_bytecode@,
            ),
            final(self).deep_view() == churn_effect(
                old(self).deep_view(),
                args@,
                main_bytecode@,
                constructor_bytecode@,
            ),
    {
        let args_hex = encode_constructor_args(&args);
        let bytecode = assemble_deployment(main_bytecode, constructor_bytecode, args_hex.as_str());
        let runtime = main_bytecode.to_owned();
        let abi: Option<Abi> = match &self.artifact {
            Some(a) => match &a.abi {
                Some(ab) => Some(ab.duplicate()),
                None => None,
            },
            None => None,
        };
        let art = Artifact { bytecode, runtime, abi };
        let ret = art.duplicate();
        self.artifact = Some(art);
        proof {
            assert(ret.deep_view() =~~= churn_artifact(
                old(self).deep_view(),
                args@,
                main_bytecode@,
                constructor_bytecode@,
            ));
            assert(self.deep_view() =~~= churn_effect(
                old(self).deep_view(),
                args@,
                main_bytecode@,
                constructor_bytecode@,
            ));
        }
        Ok(ret)
    }

    /// The artifact to persist, if one has been created: `None` means there
    /// is nothing to export, which is a success and not an error, and no
    /// write happens.
    pub fn export(&self) -> (r: Option<Artifact>)
        ensures
            (match (r, self.deep_view().artifact) {
                (Some(a), Some(av)) => a.deep_view() == av,
                (None, None) => true,
                _ => false,
            }),
    {
        match &self.artifact {
            Some(a) => Some(a.duplicate()),
            None => None,
        }
    }

    /// Generates the interface description of a tree and merges it into the
    /// session's artifact, creating the artifact if absent and leaving its
    /// bytecode fields untouched.
    pub fn abigen(&mut self, ast: Contract) -> (r: Result<Abi, CodegenError>)
        ensures
            r is Ok,
            r.unwrap().deep_view() == abi_of(ast.deep_view()),
            final(self).deep_view() == abigen_effect(old(self).deep_view(), ast.deep_view()),
    {
        let abi = crate::artifact::generate_interface(&ast);
        let new_art: Artifact = match &self.artifact {
            Some(a) => Artifact {
                bytecode: a.bytecode.clone(),
                runtime: a.runtime.clone(),
                abi: Some(abi.duplicate()),
            },
            None => Artifact {
                bytecode: String::new(),
                runtime: String::new(),
                abi: Some(abi.duplicate()),
            },
        };
        self.artifact = Some(new_art);
        proof {
            assert(self.deep_view() =~~= abigen_effect(old(self).deep_view(), ast.deep_view()));
        }
        Ok(abi)
    }
}

} // verus!
