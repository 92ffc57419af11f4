//! The post office: one mailbox per component key, and one queue of control
//! messages for the UI itself.

use std::collections::HashMap;
use vstd::prelude::*;
use crate::component::{Component, Mailbox, MakeupMessage, RawComponentMessage};
use crate::ui::UiControlMessage;
use crate::Key;

verus! {

broadcast use vstd::std_specs::hash::group_hash_axioms;

/// What a post office holds: the messages that wait for each key, and the
/// control messages that wait for the UI.
pub struct PostOfficeView<M> {
    pub boxes: Map<Key, Seq<RawComponentMessage<M>>>,
    pub control: Seq<UiControlMessage>,
}

impl<M> PostOfficeView<M> {
    /// A post office in which nothing waits.
    pub open spec fn empty() -> Self {
        PostOfficeView { boxes: Map::empty(), control: Seq::empty() }
    }

    /// The messages that wait for `key`, oldest first.
    pub open spec fn mail(self, key: Key) -> Seq<RawComponentMessage<M>> {
        if self.boxes.contains_key(key) {
            self.boxes[key]
        } else {
            Seq::empty()
        }
    }

    /// The post office after `message` has joined the end of the mailbox of
    /// `key`.
    pub open spec fn send(self, key: Key, message: RawComponentMessage<M>) -> Self {
        PostOfficeView { boxes: self.boxes.insert(key, self.mail(key).push(message)), ..self }
    }

    /// The post office without the mailbox of `key`.
    pub open spec fn clear(self, key: Key) -> Self {
        PostOfficeView { boxes: self.boxes.remove(key), ..self }
    }

    /// The post office after `message` has joined the end of the control
    /// queue.
    pub open spec fn send_control(self, message: UiControlMessage) -> Self {
        PostOfficeView { control: self.control.push(message), ..self }
    }

    /// The post office with an empty control queue.
    pub open spec fn clear_control(self) -> Self {
        PostOfficeView { control: Seq::empty(), ..self }
    }
}

/// A message waits until the mailbox is taken, and is handed out once: after
/// `send` the mailbox of the key ends with the message, and once the mailbox
/// has been cleared nothing waits for the key any more.
pub proof fn lemma_send_then_clear<M>(
    office: PostOfficeView<M>,
    key: Key,
    message: RawComponentMessage<M>,
)
    ensures
        office.send(key, message).mail(key) == office.mail(key).push(message),
        office.send(key, message).clear(key).mail(key) == Seq::<RawComponentMessage<M>>::empty(),
        forall|other: Key|
            other != key ==> #[trigger] office.send(key, message).mail(other) == office.mail(other),
        forall|other: Key|
            other != key ==> #[trigger] office.send(key, message).clear(key).mail(other)
                == office.mail(other),
{
}

/// The post office is used for managing component mailboxes, including sending
/// and receiving messages.
#[derive(Debug)]
pub struct PostOffice<M> {
    boxes: HashMap<Key, Vec<RawComponentMessage<M>>>,
    ui_mailbox: Vec<UiControlMessage>,
}

impl<M> View for PostOffice<M> {
    type V = PostOfficeView<M>;

    closed spec fn view(&self) -> PostOfficeView<M> {
        PostOfficeView {
            boxes: self.boxes@.map_values(|v: Vec<RawComponentMessage<M>>| v@),
            control: self.ui_mailbox@,
        }
    }
}

impl<M> PostOffice<M> {
    /// Create a new post office instance.
    pub fn new() -> (office: Self)
        ensures
            office@ == PostOfficeView::<M>::empty(),
    {
        let office = PostOffice { boxes: HashMap::new(), ui_mailbox: Vec::new() };
        assert(office@.boxes =~= Map::empty());
        office
    }

    fn post(&mut self, key: Key, message: RawComponentMessage<M>)
        ensures
            final(self)@ == old(self)@.send(key, message),
    {
        let mut mailbox = match self.boxes.remove(&key) {
            Some(mailbox) => mailbox,
            None => Vec::new(),
        };
        mailbox.push(message);
        self.boxes.insert(key, mailbox);
        assert(self@.boxes =~= old(self)@.send(key, message).boxes);
    }

    /// Send a message to the mailbox with the given key. The mailbox is made
    /// if there is none. Where no component has the key, the message waits
    /// for ever.
    pub fn send(&mut self, key: Key, message: M)
        ensures
            final(self)@ == old(self)@.send(key, RawComponentMessage::Component(message)),
    {
        self.post(key, RawComponentMessage::Component(message));
    }

    /// Send a [`MakeupMessage`] to the mailbox with the given key.
    pub fn send_makeup(&mut self, key: Key, message: MakeupMessage)
        ensures
            final(self)@ == old(self)@.send(key, RawComponentMessage::Makeup(message)),
    {
        self.post(key, RawComponentMessage::Makeup(message));
    }

    /// Send a message, of either kind, to the mailbox with the given key.
    pub fn send_raw(&mut self, key: Key, message: RawComponentMessage<M>)
        ensures
            final(self)@ == old(self)@.send(key, message),
    {
        self.post(key, message);
    }

    /// Send a UI control message to the UI message queue.
    pub fn send_control(&mut self, message: UiControlMessage)
        ensures
            final(self)@ == old(self)@.send_control(message),
    {
        self.ui_mailbox.push(message);
    }

    /// Get the mailbox for the given component: `None` where nothing waits for
    /// it.
    pub fn mailbox<C: Component<M> + ?Sized>(&self, component: &C) -> (mailbox: Option<
        &Mailbox<M>,
    >)
        ensures
            self@.mail(component.spec_key()).len() == 0 ==> mailbox is None,
            self@.mail(component.spec_key()).len() > 0 ==> (mailbox matches Some(m) && m@
                == self@.mail(component.spec_key())),
    {
        let key = component.key();
        match self.boxes.get(&key) {
            Some(mailbox) => {
                if mailbox.len() > 0 {
                    Some(mailbox)
                } else {
                    None
                }
            },
            None => None,
        }
    }

    /// Empties the mailbox of the given component.
    pub fn clear_mailbox<C: Component<M> + ?Sized>(&mut self, component: &C)
        ensures
            final(self)@ == old(self)@.clear(component.spec_key()),
    {
        let key = component.key();
        self.boxes.remove(&key);
        assert(self@.boxes =~= old(self)@.clear(key).boxes);
    }

    /// Takes the mailbox of `key` out of the post office: what waited for the
    /// key is handed out, oldest first, and nothing waits for it any more.
    pub fn take_mailbox(&mut self, key: Key) -> (mailbox: Mailbox<M>)
        ensures
            mailbox@ == old(self)@.mail(key),
            final(self)@ == old(self)@.clear(key),
    {
        let mailbox = match self.boxes.remove(&key) {
            Some(mailbox) => mailbox,
            None => Vec::new(),
        };
        assert(self@.boxes =~= old(self)@.clear(key).boxes);
        mailbox
    }

    /// Get the UI message queue.
    pub fn ui_mailbox(&self) -> (queue: &Vec<UiControlMessage>)
        ensures
            queue@ == self@.control,
    {
        &self.ui_mailbox
    }

    /// Clear the UI message queue.
    pub fn clear_ui_mailbox(&mut self)
        ensures
            final(self)@ == old(self)@.clear_control(),
    {
        self.ui_mailbox.clear();
    }
}

} // verus!
