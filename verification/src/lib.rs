mod arith;
pub mod bytes;
pub mod primes;
pub mod field;
pub mod residue;
pub mod quintic_ring;
pub mod quintic;
pub mod conjugate;
pub mod quintic_field;
pub mod quintic_power;
pub mod algebra;
pub mod identity;
pub mod scalar;
pub mod ecgfp5;
pub mod curve_laws;
pub mod chords;
pub mod compression;
pub mod proper;
pub mod curve_group;
pub mod associativity;
pub mod group_law;
pub mod multiples;
pub mod generator_order;
pub mod order_prime;
pub mod generator_multiples;
pub mod hash;
pub mod schnorr;
pub mod signature_laws;
pub mod tree;
pub mod u256;
pub mod addition;
pub mod params;
pub mod ast;
pub mod account;
pub mod note;
pub mod pool_config;
pub mod commitment;
pub mod public_inputs;
pub mod gates;
pub mod offset_order;
pub mod gate_laws;
pub mod schnorr_gadget;
pub mod schnorr_gadget_laws;
pub mod chain_laws;
pub mod circuit;
pub mod commitment_tree;
pub mod hash_gadgets;
pub mod priv_tx;
pub mod signature_wires;
pub mod wire_laws;
pub mod tx_witness;
pub mod reject_tx;
pub mod freshacc_tx;
pub mod fake_tx;
pub mod priv_tx_inputs;
pub mod tx_laws;
pub mod text;
pub mod errors;
pub mod built_priv_tx;
pub mod spend_builder;
pub mod spend_laws;
pub mod freshacc_builder;
pub mod fake_builder;
pub mod builder_laws;
pub mod authority_laws;
pub mod deposit_tx;
pub mod deposit_builder;
pub mod withdraw_slots;
pub mod withdraw_tx;
pub mod withdraw_builder;
pub mod reader_laws;
pub mod bridge_laws;
pub mod hash_laws;
pub mod note_laws;
pub mod challenge_laws;
pub mod soundness_laws;
pub mod building_laws;
pub mod structure_laws;
pub mod encoding_laws;
pub mod completion_laws;
pub mod acceptance_laws;
pub mod publication_laws;
pub mod condition_laws;
pub mod message_laws;
pub mod layout_laws;
