# bastor

Actors with a state of their own on top of the Bastion runtime, verified with Verus.

- `src/settings.rs`: the supervisor and children group settings an actor or an override gives.
- `src/plan.rs`: the sequence of Bastion builder calls those settings ask for (actor first, override after), and the verified code that makes them on Bastion's builders.
- `src/outcome.rs`: what a sequence of builder calls gives a builder, and the laws: an override wins where it sets something, dispatchers and distributors accumulate, an empty override changes nothing.
- `src/bastion_api.rs`: the Bastion types and calls the library relies on, unproved. Each builder call's wrapper states how it changes the builder's settings (`supervisor_config`, `children_config`), which is what ties the model of `outcome.rs` to the calls that `plan.rs` makes.
- `src/actor.rs`, `src/overrides.rs`: the `Actor` trait and the `Override` builder.
- `src/error.rs`: the library's errors.
- `app/`: the async executor trait (`Exec`) and `anyhow`-returning entry points.
