pub mod dependency_checker;
