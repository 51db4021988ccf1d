pub mod subscriber;
