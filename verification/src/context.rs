//! The plugin and context subsystem: the unit of mutable configuration
//! that scopes one processing session.
//!
//! A context owns its registries outright once built; nothing is shared
//! between two contexts, so growing one can never be seen through the
//! other.  Plugins are records in an ordered chain walked once, front to
//! back, at initialization: a bad magic or a version above the library's
//! own aborts the walk there, keeps what earlier links already
//! registered, and reports failure.

use vstd::prelude::*;
use crate::error::ErrorCode;
use crate::error::LogErrorChunk;
use crate::error::LogErrorHandler;
use crate::signature::Signature;
use crate::signatures::PLUGIN_MAGIC;
use crate::tags::TagDescriptor;
use crate::tags::TagListItem;
use crate::LCMS_VERSION;

verus! {

/// Most registrations one plugin record may carry.
pub const MAX_TYPES_IN_LCMS_PLUGIN: u8 = 20;

/// The payload of a plugin record: what it registers.
#[derive(Debug)]
pub enum PluginType {
    /// One more tag purpose for the descriptor registry.
    Tag { sig: Signature, desc: TagDescriptor },
}

/// One extension record of a plugin chain.
#[derive(Debug)]
pub struct Plugin {
    /// Must be the plugin magic for the record to be honoured.
    pub magic: Signature,
    /// Least library version the record asks for, in thousandths.
    pub expected_version: u32,
    /// The kind of extension point the record addresses.
    pub plugin_type: Signature,
    /// What the record registers.
    pub data: PluginType,
}

/// The descriptor-registry chunk of a context: the entries plugins have
/// registered, in registration order.
#[derive(Debug)]
pub struct TagPluginChunk {
    pub tag: Vec<TagListItem>,
}

/// Whether a chain link passes the checks of the chain walk: the magic
/// cookie is right and the record asks for no newer library.
pub open spec fn plugin_ok(p: Plugin) -> bool {
    &&& p.magic.0 == PLUGIN_MAGIC
    &&& p.expected_version <= LCMS_VERSION
}

/// How many links at the front of the chain pass the checks: the walk
/// applies exactly these and no later one.
pub open spec fn valid_prefix_len(chain: Seq<Plugin>) -> int
    decreases chain.len(),
{
    if chain.len() == 0 {
        0
    } else if !plugin_ok(chain[0]) {
        0
    } else {
        1 + valid_prefix_len(chain.drop_first())
    }
}

proof fn lemma_valid_prefix_split(chain: Seq<Plugin>, i: int)
    requires
        0 <= i <= chain.len(),
        forall|j: int| 0 <= j < i ==> plugin_ok(#[trigger] chain[j]),
    ensures
        valid_prefix_len(chain) == i + valid_prefix_len(chain.skip(i)),
    decreases i,
{
    if i == 0 {
        assert(chain.skip(0) =~= chain);
    } else {
        assert(plugin_ok(chain[0]));
        assert(valid_prefix_len(chain) == 1 + valid_prefix_len(chain.drop_first()));
        assert(forall|j: int|
            0 <= j < i - 1 ==> #[trigger] chain.drop_first()[j] == chain[j + 1]);
        lemma_valid_prefix_split(chain.drop_first(), i - 1);
        assert(chain.drop_first().skip(i - 1) =~= chain.skip(i));
    }
}

/// Whether a registry entry holds exactly what a plugin record carries.
pub open spec fn registered_from(it: TagListItem, p: Plugin) -> bool {
    match p.data {
        PluginType::Tag { sig, desc } => {
            &&& it.sig == sig
            &&& it.desc.element_count == desc.element_count
            &&& it.desc.supported_types@ == desc.supported_types@
            &&& it.desc.decide_type == desc.decide_type
        },
    }
}

/// Whether an entry stands first in the registry for its signature.
pub open spec fn first_descriptor_match(tags: Seq<TagListItem>, sig: Signature, i: int) -> bool {
    &&& 0 <= i < tags.len()
    &&& tags[i].sig == sig
    &&& forall|j: int| 0 <= j < i ==> tags[j].sig != sig
}

impl TagPluginChunk {
    /// An empty registry chunk.
    pub fn new() -> (r: Self)
        ensures
            r.tag@.len() == 0,
    {
        TagPluginChunk { tag: Vec::new() }
    }

    /// Resolves a tag signature to the descriptor registered for it: the
    /// first entry bearing the signature wins, scanning front to back.
    pub fn get_tag_descriptor(&self, signature: Signature) -> (r: Option<&TagDescriptor>)
        ensures
            match r {
                Some(d) => exists|i: int|
                    #[trigger] first_descriptor_match(self.tag@, signature, i) && *d
                        == self.tag@[i].desc,
                None => forall|j: int|
                    0 <= j < self.tag@.len() ==> (#[trigger] self.tag@[j].sig) != signature,
            },
    {
        let mut i: usize = 0;
        while i < self.tag.len()
            invariant
                i <= self.tag@.len(),
                forall|j: int| 0 <= j < i ==> (#[trigger] self.tag@[j].sig) != signature,
            decreases self.tag@.len() - i,
        {
            if self.tag[i].sig == signature {
                proof {
                    assert(first_descriptor_match(self.tag@, signature, i as int));
                }
                return Some(&self.tag[i].desc);
            }
            i = i + 1;
        }
        None
    }
}

/// The unit of configuration for one processing session: the live
/// descriptor registry as plugins have grown it, the error log, and
/// opaque caller-supplied data.  A context owns all of it exclusively.
#[derive(Debug)]
pub struct Context {
    pub user_data: Option<Vec<u8>>,
    pub error_handler: LogErrorChunk,
    pub tag_plugin: TagPluginChunk,
}

/// Reports one diagnostic through the context's error-log chunk.
pub fn signal_error(context: &mut Context, code: ErrorCode, text: &str)
    ensures
        final(context).user_data == old(context).user_data,
        final(context).tag_plugin.tag@ == old(context).tag_plugin.tag@,
        final(context).error_handler.handler == old(context).error_handler.handler,
        old(context).error_handler.handler == LogErrorHandler::Record ==> {
            &&& final(context).error_handler.entries@.len() == old(context).error_handler.entries@.len() + 1
            &&& final(context).error_handler.entries@.last().code == code
            &&& final(context).error_handler.entries@.last().text@ == text@
            &&& forall|i: int|
                0 <= i < old(context).error_handler.entries@.len() ==> final(context).error_handler.entries@[i] == old(context).error_handler.entries@[i]
        },
        old(context).error_handler.handler != LogErrorHandler::Record ==> final(context).error_handler.entries@ == old(context).error_handler.entries@,
{
    context.error_handler.log(code, text);
}

impl Context {
    /// Builds a context: the given user data, the default error handling,
    /// and a descriptor registry grown by walking the given plugin chain.
    /// As in [`Context::init_plugins`], the walk stops at the first link
    /// that fails its checks; what the links before it registered stays,
    /// and the flag beside the context reports whether the whole chain
    /// was honoured.
    pub fn new(plugin: Option<&Vec<Plugin>>, data: Option<Vec<u8>>) -> (r: (Context, bool))
        ensures
            match (r.0.user_data, data) {
                (Some(a), Some(b)) => a@ == b@,
                (None, None) => true,
                _ => false,
            },
            r.0.error_handler.handler == LogErrorHandler::Discard,
            r.0.error_handler.entries@.len() == 0,
            match plugin {
                Some(chain) => {
                    &&& r.1 == (valid_prefix_len(chain@) == chain@.len())
                    &&& r.0.tag_plugin.tag@.len() == valid_prefix_len(chain@)
                    &&& forall|k: int|
                        0 <= k < valid_prefix_len(chain@) ==> registered_from(
                            #[trigger] r.0.tag_plugin.tag@[k],
                            chain@[k],
                        )
                },
                None => r.1 && r.0.tag_plugin.tag@.len() == 0,
            },
    {
        let mut value = Context {
            user_data: data,
            error_handler: LogErrorChunk::new(None),
            tag_plugin: TagPluginChunk::new(),
        };
        let mut ok = true;
        match plugin {
            Some(chain) => {
                ok = value.init_plugins(chain);
                proof {
                    assert forall|k: int| 0 <= k < valid_prefix_len(chain@) implies
                        registered_from(#[trigger] value.tag_plugin.tag@[k], chain@[k]) by {
                        assert(registered_from(value.tag_plugin.tag@[0 + k], chain@[k]));
                    }
                }
            },
            None => {},
        }
        (value, ok)
    }

    /// Walks a plugin chain front to back and registers each link.  A
    /// link with a wrong magic cookie or a version need above the
    /// library's own aborts the whole remaining walk: no later link takes
    /// effect, links already applied stay applied, the failure is
    /// reported through the log hook, and the walk returns failure.
    pub fn init_plugins(&mut self, plugin: &Vec<Plugin>) -> (ok: bool)
        ensures
            ok == (valid_prefix_len(plugin@) == plugin@.len()),
            final(self).user_data == old(self).user_data,
            final(self).error_handler.handler == old(self).error_handler.handler,
            final(self).tag_plugin.tag@.len() == old(self).tag_plugin.tag@.len()
                + valid_prefix_len(plugin@),
            forall|k: int|
                0 <= k < old(self).tag_plugin.tag@.len() ==> final(self).tag_plugin.tag@[k]
                    == old(self).tag_plugin.tag@[k],
            forall|k: int|
                0 <= k < valid_prefix_len(plugin@) ==> registered_from(
                    #[trigger] final(self).tag_plugin.tag@[old(self).tag_plugin.tag@.len() + k],
                    plugin@[k],
                ),
            ok ==> final(self).error_handler.entries@ == old(self).error_handler.entries@,
            !ok && old(self).error_handler.handler == LogErrorHandler::Record ==> {
                &&& final(self).error_handler.entries@.len() == old(self).error_handler.entries@.len() + 1
                &&& final(self).error_handler.entries@.last().code
                    == ErrorCode::UnknownExtension
            },
            old(self).error_handler.handler != LogErrorHandler::Record ==> final(self).error_handler.entries@ == old(self).error_handler.entries@,
    {
        let ghost base = self.tag_plugin.tag@.len() as int;
        let mut i: usize = 0;
        while i < plugin.len()
            invariant
                i <= plugin@.len(),
                forall|j: int| 0 <= j < i ==> plugin_ok(#[trigger] plugin@[j]),
                self.user_data == old(self).user_data,
                self.error_handler.handler == old(self).error_handler.handler,
                self.error_handler.entries@ == old(self).error_handler.entries@,
                self.tag_plugin.tag@.len() == base + i,
                base == old(self).tag_plugin.tag@.len(),
                forall|k: int|
                    0 <= k < base ==> self.tag_plugin.tag@[k] == old(self).tag_plugin.tag@[k],
                forall|k: int|
                    0 <= k < i ==> registered_from(
                        #[trigger] self.tag_plugin.tag@[base + k],
                        plugin@[k],
                    ),
            decreases plugin@.len() - i,
        {
            let p = &plugin[i];
            if p.magic.to_u32() != PLUGIN_MAGIC {
                signal_error(self, ErrorCode::UnknownExtension, "Unrecognized plugin");
                proof {
                    lemma_valid_prefix_split(plugin@, i as int);
                }
                return false;
            }
            if p.expected_version > LCMS_VERSION {
                signal_error(
                    self,
                    ErrorCode::UnknownExtension,
                    "plugin needs a newer Little CMS than the current version",
                );
                proof {
                    lemma_valid_prefix_split(plugin@, i as int);
                }
                return false;
            }
            match &p.data {
                PluginType::Tag { .. } => {
                    let _r = self.register_tag_plugin(Some(p));
                },
            }
            i = i + 1;
        }
        proof {
            lemma_valid_prefix_split(plugin@, plugin@.len() as int);
        }
        true
    }

    /// Clears every plugin registration of this context at once; there is
    /// no selective removal of a single one.
    pub fn unregister_plugins(&mut self)
        ensures
            final(self).user_data == old(self).user_data,
            final(self).error_handler == old(self).error_handler,
            final(self).tag_plugin.tag@.len() == 0,
    {
        let _r = self.register_tag_plugin(None);
    }

    /// Appends the registration one plugin record carries to this
    /// context's registry, or clears the whole registry when no record is
    /// given.  Only this context changes: no other context can be
    /// affected, since none shares the registry.
    pub fn register_tag_plugin(&mut self, plugin: Option<&Plugin>) -> (ok: bool)
        ensures
            ok,
            final(self).user_data == old(self).user_data,
            final(self).error_handler == old(self).error_handler,
            match plugin {
                None => final(self).tag_plugin.tag@.len() == 0,
                Some(p) => {
                    &&& final(self).tag_plugin.tag@.len() == old(self).tag_plugin.tag@.len() + 1
                    &&& forall|k: int|
                        0 <= k < old(self).tag_plugin.tag@.len() ==> final(self).tag_plugin.tag@[k] == old(self).tag_plugin.tag@[k]
                    &&& registered_from(final(self).tag_plugin.tag@.last(), *p)
                },
            },
    {
        match plugin {
            None => {
                self.tag_plugin.tag.clear();
                true
            },
            Some(p) => {
                match &p.data {
                    PluginType::Tag { sig, desc } => {
                        self.tag_plugin.tag.push(
                            TagListItem { sig: *sig, desc: desc.duplicate() },
                        );
                        true
                    },
                }
            },
        }
    }

    /// The opaque caller-supplied data, if any was given.
    pub fn get_user_data(&self) -> (r: Option<&Vec<u8>>)
        ensures
            match (r, self.user_data) {
                (Some(a), Some(b)) => a@ == b@,
                (None, None) => true,
                _ => false,
            },
    {
        self.user_data.as_ref()
    }

    /// The context's error-log chunk.
    pub fn get_log_error_chunk(&self) -> (r: &LogErrorChunk)
        ensures
            r == &self.error_handler,
    {
        &self.error_handler
    }

    /// Installs how this context handles reported diagnostics; without an
    /// argument the default handling comes back.
    pub fn set_log_error_handler(&mut self, func: Option<LogErrorHandler>)
        ensures
            final(self).user_data == old(self).user_data,
            final(self).tag_plugin.tag@ == old(self).tag_plugin.tag@,
            final(self).error_handler.entries@ == old(self).error_handler.entries@,
            final(self).error_handler.handler == match func {
                Some(h) => h,
                None => LogErrorHandler::Discard,
            },
    {
        self.error_handler.handler = match func {
            Some(h) => h,
            None => LogErrorHandler::Discard,
        };
    }

    /// The context's descriptor-registry chunk.
    pub fn get_tag_plugin_chunk(&self) -> (r: &TagPluginChunk)
        ensures
            r == &self.tag_plugin,
    {
        &self.tag_plugin
    }

    /// Forks a derived configuration: a deep copy of the registries and
    /// the log, after which the two contexts evolve independently.
    pub fn duplicate(&self) -> (r: Context)
        ensures
            match (r.user_data, self.user_data) {
                (Some(a), Some(b)) => a@ == b@,
                (None, None) => true,
                _ => false,
            },
            r.error_handler.handler == self.error_handler.handler,
            r.error_handler.entries@.len() == 0,
            r.tag_plugin.tag@.len() == self.tag_plugin.tag@.len(),
            forall|k: int|
                0 <= k < self.tag_plugin.tag@.len() ==> {
                    &&& (#[trigger] r.tag_plugin.tag@[k]).sig == self.tag_plugin.tag@[k].sig
                    &&& r.tag_plugin.tag@[k].desc.element_count
                        == self.tag_plugin.tag@[k].desc.element_count
                    &&& r.tag_plugin.tag@[k].desc.supported_types@
                        == self.tag_plugin.tag@[k].desc.supported_types@
                    &&& r.tag_plugin.tag@[k].desc.decide_type
                        == self.tag_plugin.tag@[k].desc.decide_type
                },
    {
        let user_data = match &self.user_data {
            Some(d) => {
                let mut copy: Vec<u8> = Vec::new();
                let mut i: usize = 0;
                while i < d.len()
                    invariant
                        i <= d@.len(),
                        copy@ == d@.take(i as int),
                    decreases d@.len() - i,
                {
                    let b = d[i];
                    copy.push(b);
                    proof {
                        assert(copy@ =~= d@.take(i + 1));
                    }
                    i = i + 1;
                }
                proof {
                    assert(d@.take(d@.len() as int) =~= d@);
                }
                Some(copy)
            },
            None => None,
        };
        let mut tags: Vec<TagListItem> = Vec::new();
        let mut i: usize = 0;
        while i < self.tag_plugin.tag.len()
            invariant
                i <= self.tag_plugin.tag@.len(),
                tags@.len() == i,
                forall|k: int|
                    0 <= k < i ==> {
                        &&& (#[trigger] tags@[k]).sig == self.tag_plugin.tag@[k].sig
                        &&& tags@[k].desc.element_count
                            == self.tag_plugin.tag@[k].desc.element_count
                        &&& tags@[k].desc.supported_types@
                            == self.tag_plugin.tag@[k].desc.supported_types@
                        &&& tags@[k].desc.decide_type
                            == self.tag_plugin.tag@[k].desc.decide_type
                    },
            decreases self.tag_plugin.tag@.len() - i,
        {
            let it = self.tag_plugin.tag[i].duplicate();
            tags.push(it);
            i = i + 1;
        }
        Context {
            user_data,
            error_handler: LogErrorChunk {
                handler: self.error_handler.handler,
                entries: Vec::new(),
            },
            tag_plugin: TagPluginChunk { tag: tags },
        }
    }
}

} // verus!
