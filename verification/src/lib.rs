//! Núcleo verificado do pomodoro: tempo, timer, ciclo, plano de durações,
//! histórico diário, contrato com a interface e a lógica de supressão de
//! atalhos. Nada aqui conhece relógio do sistema, disco ou rede.

pub mod tempo;
pub mod texto;
pub mod etapa;
pub mod modo_de_duracao;
pub mod som_de_alarme;
pub mod data;
pub mod quantidade_de_sessoes;
pub mod ciclo;
pub mod duracao_de_etapa;
pub mod timer;
pub mod ciclo_em_execucao;
pub mod contadores_do_dia;
pub mod historico_diario;
pub mod url_analisada;
pub mod video_incorporado;
pub mod destino_de_carregamento;
pub mod url_de_atividade;
pub mod atividade;
pub mod sessao;
pub mod plano_do_ciclo;
pub mod relogio;
pub mod contrato;
pub mod data_persistida;
pub mod configuracao;
pub mod chave;
pub mod erro_atalhos;
pub mod fonte;
pub mod snapshot;
pub mod gerenciador;
