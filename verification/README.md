# kaantor

Building blocks for message-passing distributed algorithms (flooding,
spanning trees, depth-first traversals) run by actors.

- `src/` is the verified library:
  - `actor`: actor identifiers;
  - `protocol`: protocol messages (origin, destination, session, sender,
    payload) and the typestate builder that assembles them;
  - `proxy`: the bookkeeping of the proxies that reach a node's neighbours
    (message numbers, delivery counters) and the choice of the neighbours a
    message goes to;
  - `handler`: what a node does after handling a message, and the trait that
    protocol handlers implement;
  - `kantor`: the message layer with hops instead of senders, and its builders;
  - `tree`: trees of keyed items and their outline as a `ptree` tree;
  - `text`: decimal numbers, identifier texts and joined lists.
- `app/` is the actix runtime around it: nodes as actors, edges between
  them, asynchronous delivery, and printing trees.
