//! The holder of the module configuration: one writer publishes whole
//! snapshots, any number of readers take the snapshot that is current.

use crate::config::{Config, ConfigView};
use crate::net::{IpAddress, MacAddr};
use arc_swap::ArcSwap;
use std::sync::Arc;
use vstd::prelude::*;

verus! {

/// The configuration that the running modules act on.
#[derive(Clone, Copy, Debug, PartialEq, Eq, Structural)]
pub struct ModuleConfig {
    pub enabled: bool,
}

/// The resource limits of the host container, read once at startup.
#[derive(Clone, Copy, Debug, PartialEq, Eq, Structural)]
pub struct ResourceLimits {
    /// CPU limit in milli-cores.
    pub cpu_millicores: u32,
    /// Memory limit in bytes.
    pub memory_bytes: u64,
}

/// The slot that holds the current snapshot: an `arc_swap::ArcSwap`, kept
/// opaque to the verifier. It is shared with the readers handed out by
/// `ConfigHandler::reader`, and written only through the handler that owns
/// it.
#[verifier::external_body]
pub struct ConfigCell {
    inner: Arc<ArcSwap<ModuleConfig>>,
}

/// A handle for reading the current snapshot from another thread: a second
/// pointer to the handler's `arc_swap::ArcSwap`, kept opaque to the
/// verifier.
#[verifier::external_body]
pub struct ConfigReader {
    inner: Arc<ArcSwap<ModuleConfig>>,
}

/// The snapshot that a slot holds, as its one writer sees it between two of
/// its own writes.
pub uninterp spec fn published(cell: ConfigCell) -> ModuleConfig;

/// The slot of which a reader is a second handle, as the slot stood when
/// the handle was made. What the reader reads later is what the slot holds
/// then, which this does not say.
pub uninterp spec fn made_from(reader: ConfigReader) -> ConfigCell;

/// `ArcSwap::from_pointee`: a new slot holds the value it was made from.
#[verifier::external_body]
fn cell_new(value: ModuleConfig) -> (cell: ConfigCell)
    ensures
        published(cell) == value,
{
    ConfigCell { inner: Arc::new(ArcSwap::from_pointee(value)) }
}

/// `ArcSwapAny::store`: replaces the value inside, so that further loads
/// yield the new value. The exclusive borrow stands for the handler being
/// the only writer.
#[verifier::external_body]
fn cell_store(cell: &mut ConfigCell, value: ModuleConfig)
    ensures
        published(*final(cell)) == value,
{
    cell.inner.store(Arc::new(value));
}

/// `ArcSwapAny::load_full` on the writer's own slot: the value last stored
/// through it.
#[verifier::external_body]
fn cell_load(cell: &ConfigCell) -> (value: Arc<ModuleConfig>)
    ensures
        *value == published(*cell),
{
    cell.inner.load_full()
}

/// `Arc::clone` of the slot: another pointer to the same allocation, and so
/// a reader of the same slot.
#[verifier::external_body]
fn cell_share(cell: &ConfigCell) -> (reader: ConfigReader)
    ensures
        made_from(reader) == *cell,
{
    ConfigReader { inner: Arc::clone(&cell.inner) }
}

/// `ArcSwapAny::load_full` on a reader: some whole snapshot. Which one
/// depends on what the writer has published by then, so nothing is claimed
/// of it.
#[verifier::external_body]
fn reader_load(reader: &ConfigReader) -> (value: Arc<ModuleConfig>) {
    reader.inner.load_full()
}

impl ConfigReader {
    /// The snapshot that is current at the moment of the call. Never
    /// blocks; a publish that runs at the same time is seen whole or not at
    /// all.
    pub fn read(&self) -> (r: Arc<ModuleConfig>) {
        reader_load(self)
    }
}

/// Owner of the static configuration, the control-plane identity and the
/// module configuration in its two stages: the candidate that the writer
/// prepares, and the current one that readers see.
pub struct ConfigHandler {
    pub ctrl_ip: IpAddress,
    pub ctrl_mac: MacAddr,
    /// CPU limit of the container in milli-cores; zero where unknown.
    pub container_cpu_limit: u32,
    /// Memory limit of the container in bytes; zero where unknown.
    pub container_mem_limit: u64,
    pub static_config: Config,
    pub candidate_config: ModuleConfig,
    pub current_config: ConfigCell,
}

/// A `ConfigHandler` as plain values.
pub struct ConfigHandlerView {
    pub ctrl_ip: IpAddress,
    pub ctrl_mac: Seq<u8>,
    pub container_cpu_limit: u32,
    pub container_mem_limit: u64,
    pub static_config: ConfigView,
    pub candidate_config: ModuleConfig,
    pub current_config: ModuleConfig,
}

impl View for ConfigHandler {
    type V = ConfigHandlerView;

    open spec fn view(&self) -> ConfigHandlerView {
        ConfigHandlerView {
            ctrl_ip: self.ctrl_ip,
            ctrl_mac: self.ctrl_mac@,
            container_cpu_limit: self.container_cpu_limit,
            container_mem_limit: self.container_mem_limit,
            static_config: self.static_config@,
            candidate_config: self.candidate_config,
            current_config: published(self.current_config),
        }
    }
}

impl ConfigHandlerView {
    /// The handler as it is right after construction: nothing enabled, and
    /// limits of zero where none were found.
    pub open spec fn initial(
        config: ConfigView,
        ctrl_ip: IpAddress,
        ctrl_mac: Seq<u8>,
        limits: Option<ResourceLimits>,
    ) -> ConfigHandlerView {
        ConfigHandlerView {
            ctrl_ip,
            ctrl_mac,
            container_cpu_limit: match limits {
                Some(l) => l.cpu_millicores,
                None => 0,
            },
            container_mem_limit: match limits {
                Some(l) => l.memory_bytes,
                None => 0,
            },
            static_config: config,
            candidate_config: ModuleConfig { enabled: false },
            current_config: ModuleConfig { enabled: false },
        }
    }

    /// The handler after `next` was published: both stages hold it, the
    /// rest is as before.
    pub open spec fn publish(self, next: ModuleConfig) -> ConfigHandlerView {
        ConfigHandlerView { candidate_config: next, current_config: next, ..self }
    }
}

impl ConfigHandler {
    /// Makes the handler for a loaded configuration and a resolved
    /// control-plane identity. `limits` is what the host found of the
    /// container's resource limits, `None` where the platform has none to
    /// report; the handler keeps that snapshot and never asks again.
    pub fn new(
        config: Config,
        ctrl_ip: IpAddress,
        ctrl_mac: MacAddr,
        limits: Option<ResourceLimits>,
    ) -> (h: ConfigHandler)
        ensures
            h@ == ConfigHandlerView::initial(config@, ctrl_ip, ctrl_mac@, limits),
    {
        let (container_cpu_limit, container_mem_limit) = match limits {
            Some(l) => (l.cpu_millicores, l.memory_bytes),
            None => (0, 0),
        };
        let candidate_config = ModuleConfig { enabled: false };
        let current_config = cell_new(candidate_config);
        ConfigHandler {
            static_config: config,
            ctrl_ip,
            ctrl_mac,
            container_cpu_limit,
            container_mem_limit,
            candidate_config,
            current_config,
        }
    }

    /// Makes `next` the current snapshot: it is staged as the candidate and
    /// then put in place of the current one in a single replacement.
    pub fn publish(&mut self, next: ModuleConfig)
        ensures
            final(self)@ == old(self)@.publish(next),
    {
        self.candidate_config = next;
        cell_store(&mut self.current_config, next);
    }

    /// The current snapshot: the one last published, or the initial one.
    pub fn read(&self) -> (r: Arc<ModuleConfig>)
        ensures
            *r == self@.current_config,
    {
        cell_load(&self.current_config)
    }

    /// A handle by which another thread reads the current snapshot: a
    /// second handle of this handler's slot, which holds the current
    /// snapshot as the handle is made.
    pub fn reader(&self) -> (r: ConfigReader)
        ensures
            made_from(r) == self.current_config,
            published(made_from(r)) == self@.current_config,
    {
        cell_share(&self.current_config)
    }
}

/// What is published is what is read, until the next publish.
pub proof fn lemma_publish_then_read(h: ConfigHandlerView, first: ModuleConfig, last: ModuleConfig)
    ensures
        h.publish(first).current_config == first,
        h.publish(first).publish(last).current_config == last,
        h.publish(first).static_config == h.static_config,
        h.publish(first).ctrl_ip == h.ctrl_ip,
        h.publish(first).ctrl_mac == h.ctrl_mac,
{
}

} // verus!
